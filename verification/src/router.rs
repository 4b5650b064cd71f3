//! The front door: which requests are turned away before anything is
//! rendered, and what the caller is told in the end.

use crate::report::{EmailAttachmentType, Report, ReportType};
use vstd::prelude::*;
use vstd::string::*;

verus! {

/// The request succeeded.
pub const OK: u16 = 200;

/// The request is malformed.
pub const BAD_REQUEST: u16 = 400;

/// The request asks for what cannot go together.
pub const CONFLICT: u16 = 409;

/// The request failed on this side.
pub const INTERNAL_SERVER_ERROR: u16 = 500;

/// What the caller is told: a status code and a message, which for a failure
/// is the failure's own.
#[derive(Clone, Debug, PartialEq, Eq)]
pub struct HttpResponse {
    pub code: u16,
    pub message: String,
    pub error_detail: Option<String>,
    pub trace_id: Option<String>,
}

/// What an [`HttpResponse`] holds.
pub struct ResponseView {
    pub code: u16,
    pub message: Seq<char>,
    pub error_detail: Option<Seq<char>>,
    pub trace_id: Option<Seq<char>>,
}

/// The text of an optional string.
pub open spec fn optional_text(s: Option<String>) -> Option<Seq<char>> {
    match s {
        Some(s) => Some(s@),
        None => None,
    }
}

/// The response that says `message` under `code` and nothing more.
pub open spec fn plain_response(code: u16, message: Seq<char>) -> ResponseView {
    ResponseView { code, message, error_detail: None, trace_id: None }
}

impl View for HttpResponse {
    type V = ResponseView;

    open spec fn view(&self) -> ResponseView {
        ResponseView {
            code: self.code,
            message: self.message@,
            error_detail: optional_text(self.error_detail),
            trace_id: optional_text(self.trace_id),
        }
    }
}

impl HttpResponse {
    /// A failure on this side, with its message.
    pub fn internal_server_error(e: String) -> (r: Self)
        ensures
            r@ == plain_response(INTERNAL_SERVER_ERROR, e@),
    {
        HttpResponse { code: INTERNAL_SERVER_ERROR, message: e, error_detail: None, trace_id: None }
    }

    /// A success, with its message.
    pub fn success(msg: String) -> (r: Self)
        ensures
            r@ == plain_response(OK, msg@),
    {
        HttpResponse { code: OK, message: msg, error_detail: None, trace_id: None }
    }

    /// A response with the given message and status code.
    pub fn new(msg: String, status_code: u16) -> (r: Self)
        ensures
            r@ == plain_response(status_code, msg@),
    {
        HttpResponse { code: status_code, message: msg, error_detail: None, trace_id: None }
    }
}

/// Why a request is turned away.
#[derive(Clone, Copy, Debug, PartialEq, Eq, Structural)]
pub enum ValidationError {
    /// It names no dashboard.
    NoDashboards,
    /// It asks for a PDF inline.
    IncompatibleDisposition,
}

/// The format in which a report is rendered: that of its first dashboard, or,
/// where the mail has no recipients, none at all: the rendering then only
/// warms the cache.
pub open spec fn effective_type(report: Report) -> ReportType {
    if report.email_details.recipients@.len() == 0 {
        ReportType::Cache
    } else {
        report.dashboards@[0].report_type
    }
}

/// Whether a request is admitted, with the format in which it will be
/// rendered, or why it is turned away.
pub open spec fn validated(report: Report) -> Result<ReportType, ValidationError> {
    if report.dashboards@.len() == 0 {
        Err(ValidationError::NoDashboards)
    } else if effective_type(report) == ReportType::PDF
        && report.dashboards@[0].email_attachment_type == EmailAttachmentType::Inline {
        Err(ValidationError::IncompatibleDisposition)
    } else {
        Ok(effective_type(report))
    }
}

/// The status code under which a request is turned away.
pub open spec fn rejection_code(e: ValidationError) -> u16 {
    match e {
        ValidationError::NoDashboards => BAD_REQUEST,
        ValidationError::IncompatibleDisposition => CONFLICT,
    }
}

/// What the caller is told when a request is turned away.
pub open spec fn rejection_text(e: ValidationError) -> Seq<char> {
    match e {
        ValidationError::NoDashboards =>
            "At least 1 dashboard must be provided when sending a report"@,
        ValidationError::IncompatibleDisposition =>
            "Most email servers do not support inline PDF attachments, for inline attachments please use a PNG."@,
    }
}

/// The response that turns a request away.
pub open spec fn rejection(e: ValidationError) -> ResponseView {
    plain_response(rejection_code(e), rejection_text(e))
}

/// What the caller is told when the rendering only warmed the cache.
pub open spec fn cached_text(report_name: Seq<char>) -> Seq<char> {
    "dashboard data cached by report "@ + report_name
}

/// What the caller is told when the mail went out.
pub open spec fn sent_text() -> Seq<char> {
    "report sent to emails successfully"@
}

/// The time zone of a request that names none.
pub open spec fn default_timezone() -> Seq<char> {
    "Europe/London"@
}

/// Decides whether `report` is rendered at all, and in which format.
pub fn validate(report: &Report) -> (r: Result<ReportType, ValidationError>)
    ensures
        r == validated(*report),
{
    if report.dashboards.len() == 0 {
        return Err(ValidationError::NoDashboards);
    }
    let report_type = if report.email_details.recipients.len() == 0 {
        ReportType::Cache
    } else {
        report.dashboards[0].report_type
    };
    if report_type == ReportType::PDF && report.dashboards[0].email_attachment_type
        == EmailAttachmentType::Inline {
        return Err(ValidationError::IncompatibleDisposition);
    }
    Ok(report_type)
}

impl ValidationError {
    /// The response that turns the request away: a bad request where no
    /// dashboard is named, a conflict where a PDF is asked for inline.
    pub fn response(self) -> (r: HttpResponse)
        ensures
            r@ == rejection(self),
    {
        match self {
            ValidationError::NoDashboards => HttpResponse::new(
                "At least 1 dashboard must be provided when sending a report".to_owned(),
                BAD_REQUEST,
            ),
            ValidationError::IncompatibleDisposition => HttpResponse::new(
                "Most email servers do not support inline PDF attachments, for inline attachments please use a PNG.".to_owned(),
                CONFLICT,
            ),
        }
    }
}

/// The time zone of a request: the one it names, or London's.
pub fn timezone_or_default(timezone: Option<String>) -> (r: String)
    ensures
        r@ == match timezone {
            Some(zone) => zone@,
            None => default_timezone(),
        },
{
    match timezone {
        Some(zone) => zone,
        None => "Europe/London".to_owned(),
    }
}

/// The response after a rendering that only warmed the cache.
pub fn cached_response(report_name: &str) -> (r: HttpResponse)
    ensures
        r@ == plain_response(OK, cached_text(report_name@)),
{
    let mut message = String::new();
    message.append("dashboard data cached by report ");
    message.append(report_name);
    HttpResponse::success(message)
}

/// The response after the mail went out.
pub fn sent_response() -> (r: HttpResponse)
    ensures
        r@ == plain_response(OK, sent_text()),
{
    HttpResponse::success("report sent to emails successfully".to_owned())
}

} // verus!
