use o2_report_generator::router::{
    cached_response, sent_response, timezone_or_default, validate, HttpResponse, ValidationError,
    BAD_REQUEST, CONFLICT, INTERNAL_SERVER_ERROR, OK,
};
use o2_report_generator::{
    default_attachment_type, default_report_type, EmailAttachmentType, EmailDetails, Report,
    ReportAttachmentDimensions, ReportDashboard, ReportTimerange, ReportType,
};

fn a_dashboard(report_type: ReportType, disposition: EmailAttachmentType) -> ReportDashboard {
    ReportDashboard {
        dashboard: "dash1".to_string(),
        folder: "default".to_string(),
        tabs: vec!["tab1".to_string()],
        variables: vec![],
        timerange: ReportTimerange::default(),
        report_type,
        email_attachment_type: disposition,
        attachment_dimensions: ReportAttachmentDimensions { height: 730, width: 1370 },
    }
}

fn a_report(dashboards: Vec<ReportDashboard>, recipients: Vec<&str>) -> Report {
    Report {
        dashboards,
        email_details: EmailDetails {
            recipients: recipients.iter().map(|r| r.to_string()).collect(),
            title: "Weekly".to_string(),
            name: "weekly".to_string(),
            message: "Here it is.".to_string(),
            dashb_url: "http://localhost:5080/web".to_string(),
        },
    }
}

#[test]
fn the_status_codes() {
    assert_eq!((OK, BAD_REQUEST, CONFLICT, INTERNAL_SERVER_ERROR), (200, 400, 409, 500));
}

#[test]
fn the_defaults_of_a_dashboard() {
    assert_eq!(default_report_type(), ReportType::PDF);
    assert_eq!(default_attachment_type(), EmailAttachmentType::Standard);
}

#[test]
fn a_response_of_any_code() {
    assert_eq!(
        HttpResponse::new("teapot".to_string(), 418),
        HttpResponse { code: 418, message: "teapot".to_string(), error_detail: None, trace_id: None }
    );
}

#[test]
fn a_success_is_two_hundred() {
    assert_eq!(
        HttpResponse::success("fine".to_string()),
        HttpResponse { code: 200, message: "fine".to_string(), error_detail: None, trace_id: None }
    );
}

#[test]
fn a_failure_on_this_side_is_five_hundred() {
    assert_eq!(
        HttpResponse::internal_server_error("broken".to_string()),
        HttpResponse { code: 500, message: "broken".to_string(), error_detail: None, trace_id: None }
    );
}

#[test]
fn a_report_without_dashboards_is_turned_away() {
    assert_eq!(validate(&a_report(vec![], vec!["a@example.com"])), Err(ValidationError::NoDashboards));
    assert_eq!(validate(&a_report(vec![], vec![])), Err(ValidationError::NoDashboards));
    assert_eq!(
        ValidationError::NoDashboards.response(),
        HttpResponse::new(
            "At least 1 dashboard must be provided when sending a report".to_string(),
            400
        )
    );
}

#[test]
fn a_pdf_asked_for_inline_is_turned_away() {
    let report =
        a_report(vec![a_dashboard(ReportType::PDF, EmailAttachmentType::Inline)], vec!["a@example.com"]);
    assert_eq!(validate(&report), Err(ValidationError::IncompatibleDisposition));
    assert_eq!(
        ValidationError::IncompatibleDisposition.response(),
        HttpResponse::new(
            "Most email servers do not support inline PDF attachments, for inline attachments please use a PNG.".to_string(),
            409
        )
    );
}

#[test]
fn a_report_is_rendered_in_the_format_of_its_first_dashboard() {
    let report = a_report(
        vec![
            a_dashboard(ReportType::PNG, EmailAttachmentType::Inline),
            a_dashboard(ReportType::PDF, EmailAttachmentType::Inline),
        ],
        vec!["a@example.com"],
    );
    assert_eq!(validate(&report), Ok(ReportType::PNG));
    let report =
        a_report(vec![a_dashboard(ReportType::PDF, EmailAttachmentType::Standard)], vec!["a@example.com"]);
    assert_eq!(validate(&report), Ok(ReportType::PDF));
}

#[test]
fn a_report_without_recipients_is_rendered_for_the_cache() {
    let report = a_report(vec![a_dashboard(ReportType::PNG, EmailAttachmentType::Standard)], vec![]);
    assert_eq!(validate(&report), Ok(ReportType::Cache));
}

#[test]
fn an_inline_pdf_without_recipients_is_rendered_for_the_cache() {
    let report = a_report(vec![a_dashboard(ReportType::PDF, EmailAttachmentType::Inline)], vec![]);
    assert_eq!(validate(&report), Ok(ReportType::Cache));
}

#[test]
fn the_time_zone_is_londons_unless_named() {
    assert_eq!(timezone_or_default(None), "Europe/London");
    assert_eq!(timezone_or_default(Some("Asia/Tokyo".to_string())), "Asia/Tokyo");
    assert_eq!(timezone_or_default(Some(String::new())), "");
}

#[test]
fn the_words_of_success() {
    assert_eq!(
        cached_response("weekly"),
        HttpResponse::new("dashboard data cached by report weekly".to_string(), 200)
    );
    assert_eq!(
        sent_response(),
        HttpResponse::new("report sent to emails successfully".to_string(), 200)
    );
}
