use o2_report_generator::timerange::TimeRangeError;
use o2_report_generator::url::{
    dashboard_links, login_url, organization_url, search_type_of, DashboardLinks, LinkError,
};
use o2_report_generator::{
    EmailAttachmentType, ReportAttachmentDimensions, ReportDashboard, ReportDashboardVariable,
    ReportTimerange, ReportTimerangeType, ReportType,
};

const WEB: &str = "http://localhost:5080/web";
const CLOCK: i64 = 1_700_000_000_000_000;

fn variable(key: &str, value: &str) -> ReportDashboardVariable {
    ReportDashboardVariable { key: key.to_string(), value: value.to_string(), id: None }
}

fn sample_dashboard(timerange: ReportTimerange) -> ReportDashboard {
    ReportDashboard {
        dashboard: "dash1".to_string(),
        folder: "default".to_string(),
        tabs: vec!["tab1".to_string(), "tab2".to_string()],
        variables: vec![variable("region", "eu"), variable("env", "prod")],
        timerange,
        report_type: ReportType::PDF,
        email_attachment_type: EmailAttachmentType::Standard,
        attachment_dimensions: ReportAttachmentDimensions { height: 730, width: 1370 },
    }
}

fn last_minutes(period: &str) -> ReportTimerange {
    ReportTimerange {
        range_type: ReportTimerangeType::Relative,
        period: period.to_string(),
        from: 0,
        to: 0,
    }
}

fn between(from: i64, to: i64) -> ReportTimerange {
    ReportTimerange {
        range_type: ReportTimerangeType::Absolute,
        period: "1w".to_string(),
        from,
        to,
    }
}

#[test]
fn the_login_page() {
    assert_eq!(login_url(WEB), "http://localhost:5080/web/login?login_as_internal_user=true");
}

#[test]
fn the_organization_page() {
    assert_eq!(organization_url(WEB, "org1"), "http://localhost:5080/web/?org_identifier=org1");
}

#[test]
fn the_mode_of_a_rendering() {
    assert_eq!(search_type_of(ReportType::Cache), "ui");
    assert_eq!(search_type_of(ReportType::PDF), "reports");
    assert_eq!(search_type_of(ReportType::PNG), "reports");
}

#[test]
fn a_period_is_named_for_the_browser_and_resolved_for_the_mail() {
    let links = dashboard_links(
        &sample_dashboard(last_minutes("30m")),
        "org1",
        WEB,
        "Europe/London",
        ReportType::PDF,
        CLOCK,
    );
    assert_eq!(
        links,
        Ok(DashboardLinks {
            rendering: "http://localhost:5080/web/dashboards/view?org_identifier=org1&dashboard=dash1&folder=default&tab=tab1&refresh=Off&searchtype=reports&period=30m&timezone=Europe/London&var-Dynamic+filters=%255B%255D&print=true&var-region=eu&var-env=prod".to_string(),
            email: "http://localhost:5080/web/dashboards/view?org_identifier=org1&dashboard=dash1&folder=default&tab=tab1&refresh=Off&from=1699998200000000&to=1700000000000000&timezone=Europe/London&var-Dynamic+filters=%255B%255D&print=true&var-region=eu&var-env=prod".to_string(),
        })
    );
}

#[test]
fn fixed_bounds_are_written_verbatim_in_both_links() {
    let links = dashboard_links(
        &sample_dashboard(between(1_600_000_000_000_000, 1_600_000_360_000_000)),
        "org1",
        WEB,
        "UTC",
        ReportType::PNG,
        CLOCK,
    )
    .unwrap();
    assert_eq!(
        links.rendering,
        "http://localhost:5080/web/dashboards/view?org_identifier=org1&dashboard=dash1&folder=default&tab=tab1&refresh=Off&searchtype=reports&from=1600000000000000&to=1600000360000000&timezone=UTC&var-Dynamic+filters=%255B%255D&print=true&var-region=eu&var-env=prod"
    );
    assert_eq!(links.email, links.rendering);
}

#[test]
fn fixed_bounds_do_not_depend_on_the_clock() {
    let dashboard = sample_dashboard(between(-5, 12));
    let early = dashboard_links(&dashboard, "o", WEB, "UTC", ReportType::PDF, 0).unwrap();
    let late = dashboard_links(&dashboard, "o", WEB, "UTC", ReportType::PDF, CLOCK).unwrap();
    assert_eq!(early, late);
    assert!(early.rendering.contains("&from=-5&to=12&"));
    assert!(early.email.contains("&from=-5&to=12&"));
}

#[test]
fn warming_the_cache_looks_like_a_person_at_the_screen() {
    let links = dashboard_links(
        &sample_dashboard(last_minutes("1h")),
        "org1",
        WEB,
        "UTC",
        ReportType::Cache,
        CLOCK,
    )
    .unwrap();
    assert!(links.rendering.contains("&refresh=Off&searchtype=ui&period=1h&timezone=UTC&"));
    assert!(!links.email.contains("searchtype"));
}

#[test]
fn only_the_first_tab_is_linked() {
    let links = dashboard_links(
        &sample_dashboard(last_minutes("1h")),
        "org1",
        WEB,
        "UTC",
        ReportType::PDF,
        CLOCK,
    )
    .unwrap();
    assert!(links.rendering.contains("&tab=tab1&"));
    assert!(!links.rendering.contains("tab2"));
}

#[test]
fn variables_follow_in_the_order_of_the_request() {
    let mut dashboard = sample_dashboard(last_minutes("1h"));
    dashboard.variables =
        vec![variable("b", "2"), variable("a", "1"), variable("b", "3"), variable("", "")];
    let links = dashboard_links(&dashboard, "org1", WEB, "UTC", ReportType::PDF, CLOCK).unwrap();
    assert!(links.rendering.ends_with("&print=true&var-b=2&var-a=1&var-b=3&var-="));
    assert!(links.email.ends_with("&print=true&var-b=2&var-a=1&var-b=3&var-="));
}

#[test]
fn a_dashboard_without_variables_ends_with_the_print_flag() {
    let mut dashboard = sample_dashboard(last_minutes("1h"));
    dashboard.variables = vec![];
    let links = dashboard_links(&dashboard, "org1", WEB, "UTC", ReportType::PDF, CLOCK).unwrap();
    assert!(links.rendering.ends_with("&var-Dynamic+filters=%255B%255D&print=true"));
    assert!(links.email.ends_with("&var-Dynamic+filters=%255B%255D&print=true"));
}

#[test]
fn a_dashboard_without_tabs_has_no_links() {
    let mut dashboard = sample_dashboard(last_minutes("1h"));
    dashboard.tabs = vec![];
    assert_eq!(
        dashboard_links(&dashboard, "org1", WEB, "UTC", ReportType::PDF, CLOCK),
        Err(LinkError::MissingTab)
    );
}

#[test]
fn a_dashboard_with_a_bad_period_has_no_links() {
    assert_eq!(
        dashboard_links(
            &sample_dashboard(last_minutes("soon")),
            "org1",
            WEB,
            "UTC",
            ReportType::PDF,
            CLOCK
        ),
        Err(LinkError::TimeRange(TimeRangeError::InvalidPeriod))
    );
    assert_eq!(
        dashboard_links(
            &sample_dashboard(last_minutes("9223372036854775807w")),
            "org1",
            WEB,
            "UTC",
            ReportType::PDF,
            CLOCK
        ),
        Err(LinkError::TimeRange(TimeRangeError::OutOfRange))
    );
}
