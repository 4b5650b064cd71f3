//! The orchestrator as mathematics: what each phase does with each answer.

use crate::decimal::decimal;
use crate::email::{composed, email_error_text, texts, EmailPlanView};
use crate::report::{Report, ReportDashboard, ReportType};
use crate::router::{
    cached_text, plain_response, rejection, rejection_text, sent_text, validated, ResponseView,
    INTERNAL_SERVER_ERROR, OK,
};
use crate::timerange::TimeRangeError;
use crate::url::{links, login_link, organization_link, LinkError};
use vstd::prelude::*;

verus! {

/// The parameters that the process was started with.
#[derive(Clone, Debug)]
pub struct Settings {
    /// The account under which dashboards are opened.
    pub user_email: String,
    pub user_password: String,
    /// How many seconds the data of a dashboard may take to load.
    pub data_timeout_secs: u16,
    /// The sender of every mail.
    pub from_email: String,
    /// Where replies go; empty for the sender.
    pub reply_to: String,
}

/// One request: a report, for whom and under which name, and the settings of
/// the process. Nothing of it changes while the request is handled.
#[derive(Clone, Debug)]
pub struct Job {
    pub report: Report,
    pub org_id: String,
    pub report_name: String,
    pub timezone: String,
    pub settings: Settings,
}

/// Where the handling of a request stands: what the orchestrator asked for
/// last, and so what the next answer is an answer to.
#[derive(Clone, Copy, Debug, PartialEq, Eq, Structural)]
pub enum Phase {
    /// A browser was asked for.
    Launching,
    /// The login page is being opened.
    OpeningLogin,
    /// The log of the page is being switched off.
    QuietingLog,
    /// The login page is left alone for a moment.
    SettlingLogin,
    /// The field for the account's name is looked for.
    FindingEmail,
    /// The account's name is typed.
    TypingEmail,
    /// The field for the password is looked for.
    FindingPassword,
    /// The password is typed and sent.
    TypingPassword,
    /// The page navigates after the login.
    AwaitingLogin,
    /// The page is left alone for a moment after the login.
    SettlingSession,
    /// The clock is read, for the bounds of the period.
    ReadingClock,
    /// The page is sent to the organization.
    SelectingOrg,
    /// The page navigates to the organization.
    AwaitingOrg,
    /// The page is left alone for a moment after that.
    SettlingOrg,
    /// The page is sent to the dashboard.
    OpeningDashboard,
    /// The page navigates to the dashboard.
    AwaitingDashboard,
    /// The sign that the data is loaded is looked for.
    Polling,
    /// A second passes before the next look.
    Pausing,
    /// The log is told that the data did not load in time.
    NotingTimeout,
    /// The container of the application is looked for.
    CheckingMain,
    /// The container of the dashboard is looked for.
    CheckingDisplay,
    /// The page is captured.
    Capturing,
    /// A screenshot is taken of the page on which the rendering failed.
    Diagnosing,
    /// The browser is given back.
    Releasing,
    /// The mail is sent.
    Mailing,
    /// The caller has been told.
    Finished,
}

/// The coarse state of a rendering.
#[derive(Clone, Copy, Debug, PartialEq, Eq, Structural)]
pub enum Stage {
    /// A browser is launched and logs in.
    Init,
    /// The login went through.
    LoggedIn,
    /// The organization is selected.
    OrgSelected,
    /// The dashboard is open, and its data is waited for.
    DashboardLoaded,
    /// The data is there, or the wait is over.
    DataReady,
    /// The page shows the dashboard, and is captured.
    Captured,
    /// The browser is given back.
    Closed,
    /// The request has failed.
    Failed,
}

/// The browser of a request: not yet launched, running, or given back.
#[derive(Clone, Copy, Debug, PartialEq, Eq, Structural)]
pub enum Session {
    NotStarted,
    Live,
    Released,
}

/// The kinds of failure.
#[derive(Clone, Copy, Debug, PartialEq, Eq, Structural)]
pub enum ErrorKind {
    /// The request is malformed or asks for what cannot go together.
    Validation,
    /// No browser could be launched.
    BrowserLaunch,
    /// The login did not go through.
    Login,
    /// A page could not be reached.
    Navigation,
    /// The page came up without the dashboard in it.
    RenderNotReady,
    /// The artifact could not be produced.
    Capture,
    /// The mail could not be sent.
    EmailSend,
}

/// A failure of a request: its kind, and the message that the caller gets.
#[derive(Clone, Debug, PartialEq, Eq)]
pub struct Failure {
    pub kind: ErrorKind,
    pub message: String,
}

/// What a [`Failure`] holds.
pub struct FailureView {
    pub kind: ErrorKind,
    pub message: Seq<char>,
}

impl View for Failure {
    type V = FailureView;

    open spec fn view(&self) -> FailureView {
        FailureView { kind: self.kind, message: self.message@ }
    }
}

/// What came of the last action.
#[derive(Clone, Debug, PartialEq, Eq)]
pub enum Event {
    /// It was done.
    Done,
    /// It failed, on the page at `page_url`, for the reason in `detail`.
    /// Where the action is one that is asked for again and again, as the
    /// look for the data of a dashboard is, `elapsed_secs` is the whole
    /// seconds that have passed since it was first asked for; of any other
    /// action it is of no account.
    Failed { page_url: String, detail: String, elapsed_secs: u64 },
    /// It produced these bytes.
    Bytes(Vec<u8>),
    /// The clock shows this many microseconds since the epoch.
    Clock { micros: i64 },
}

/// What is to be done next. Each action is answered by one [`Event`].
#[derive(Clone, Debug, PartialEq, Eq)]
pub enum Action {
    /// Launch a browser with a window of this size, and drain its events.
    Launch { width: u32, height: u32 },
    /// Open a page at `url`.
    NewPage { url: String },
    /// Switch off the page's log.
    DisableLog,
    /// Let `secs` seconds pass.
    Sleep { secs: u64 },
    /// Look for the element that `selector` names.
    Find { selector: String },
    /// Click the element found last and type `text` into it; then press
    /// Enter, if `submit`.
    Type { text: String, submit: bool },
    /// Wait until the page has finished navigating.
    WaitForNavigation,
    /// Send the page to `url`.
    Goto { url: String },
    /// Read the clock.
    ReadClock,
    /// Print the page as a PDF.
    PrintPdf { landscape: bool },
    /// Take a screenshot of the page, and keep a copy on disk, if `save_to_disk`.
    Screenshot { save_to_disk: bool },
    /// Write `message` to the log.
    Log { message: String },
    /// Give the browser back: close it, wait for it to exit, kill what is
    /// left of it, and join the task that drained its events.
    Teardown,
    /// Send this mail.
    SendEmail(crate::email::EmailPlan),
    /// Tell the caller.
    Respond(crate::router::HttpResponse),
    /// Nothing: the caller has been told.
    Halt,
}

/// What an [`Action`] holds.
pub enum ActionView {
    Launch { width: u32, height: u32 },
    NewPage { url: Seq<char> },
    DisableLog,
    Sleep { secs: u64 },
    Find { selector: Seq<char> },
    Type { text: Seq<char>, submit: bool },
    WaitForNavigation,
    Goto { url: Seq<char> },
    ReadClock,
    PrintPdf { landscape: bool },
    Screenshot { save_to_disk: bool },
    Log { message: Seq<char> },
    Teardown,
    SendEmail(EmailPlanView),
    Respond(ResponseView),
    Halt,
}

impl View for Action {
    type V = ActionView;

    open spec fn view(&self) -> ActionView {
        match *self {
            Action::Launch { width, height } => ActionView::Launch { width, height },
            Action::NewPage { url } => ActionView::NewPage { url: url@ },
            Action::DisableLog => ActionView::DisableLog,
            Action::Sleep { secs } => ActionView::Sleep { secs },
            Action::Find { selector } => ActionView::Find { selector: selector@ },
            Action::Type { text, submit } => ActionView::Type { text: text@, submit },
            Action::WaitForNavigation => ActionView::WaitForNavigation,
            Action::Goto { url } => ActionView::Goto { url: url@ },
            Action::ReadClock => ActionView::ReadClock,
            Action::PrintPdf { landscape } => ActionView::PrintPdf { landscape },
            Action::Screenshot { save_to_disk } => ActionView::Screenshot { save_to_disk },
            Action::Log { message } => ActionView::Log { message: message@ },
            Action::Teardown => ActionView::Teardown,
            Action::SendEmail(plan) => ActionView::SendEmail(plan@),
            Action::Respond(response) => ActionView::Respond(response@),
            Action::Halt => ActionView::Halt,
        }
    }
}

/// What the orchestrator knows in the middle of a request.
pub struct StateView {
    pub phase: Phase,
    pub session: Session,
    /// The format in which the dashboard is rendered.
    pub report_type: ReportType,
    /// The seconds for which the dashboard's data has been waited for, as
    /// far as is known: those that the last failed look reported, and no
    /// fewer than those slept through between the looks.
    pub waited: u64,
    /// Whether the wait ended before the data was there.
    pub timed_out: bool,
    pub rendering_link: Seq<char>,
    pub email_link: Seq<char>,
    pub artifact: Seq<u8>,
    pub failure: Option<FailureView>,
}

/// The seconds for which a page is left alone after the login.
pub const LOGIN_SETTLE_SECS: u64 = 5;

/// The seconds for which a page is left alone after the organization is
/// selected.
pub const ORG_SETTLE_SECS: u64 = 2;

/// The seconds between two looks for the dashboard's data.
pub const POLL_INTERVAL_SECS: u64 = 1;

/// The field in which the login page takes the account's name.
pub open spec fn email_selector() -> Seq<char> {
    "input[type='email']"@
}

/// The field in which the login page takes the password.
pub open spec fn password_selector() -> Seq<char> {
    "input[type='password']"@
}

/// The element that a dashboard shows once the data of all its panels is
/// loaded.
pub open spec fn data_marker() -> Seq<char> {
    "span#dashboardVariablesAndPanelsDataLoaded"@
}

/// The container of the application. It is missing where the session has
/// expired.
pub open spec fn main_selector() -> Seq<char> {
    "main"@
}

/// The container of a dashboard.
pub open spec fn display_selector() -> Seq<char> {
    "div.displayDiv"@
}

/// The dashboard that a request renders: its first.
pub open spec fn dashboard_of(job: Job) -> ReportDashboard {
    job.report.dashboards@[0]
}

/// The address of the web application.
pub open spec fn web_url(job: Job) -> Seq<char> {
    job.report.email_details.dashb_url@
}

/// The page on which an action failed, as far as the answer says.
pub open spec fn page_url_of(event: Event) -> Seq<char> {
    match event {
        Event::Failed { page_url, .. } => page_url@,
        _ => Seq::<char>::empty(),
    }
}

/// Why an action failed, as far as the answer says.
pub open spec fn detail_of(event: Event) -> Seq<char> {
    match event {
        Event::Failed { detail, .. } => detail@,
        _ => "unexpected answer"@,
    }
}

/// What the caller is told when the dashboard names no tab.
pub open spec fn missing_tab_text() -> Seq<char> {
    "Atleast one tab is required"@
}

/// What the caller is told when the login page does not open.
pub open spec fn new_page_text() -> Seq<char> {
    "Error creating new page in browser for login"@
}

/// What the caller is told when a field of the login page is missing.
pub open spec fn lookup_text(field: Seq<char>, page_url: Seq<char>, detail: Seq<char>) -> Seq<
    char,
> {
    "Error finding "@ + field + " input box: current url: "@ + page_url + " error: "@ + detail
}

/// What the caller is told when the application's container is missing.
pub open spec fn main_missing_text(
    dashboard: Seq<char>,
    page_url: Seq<char>,
    detail: Seq<char>,
) -> Seq<char> {
    "[REPORT] main html element not rendered yet for dashboard "@ + dashboard
        + "; most likely login failed: current url: "@ + page_url + " error: "@ + detail
}

/// What the caller is told when the dashboard's container is missing.
pub open spec fn display_missing_text(
    dashboard: Seq<char>,
    page_url: Seq<char>,
    detail: Seq<char>,
) -> Seq<char> {
    "[REPORT] div.displayDiv element not rendered yet for dashboard "@ + dashboard
        + ": current url: "@ + page_url + " error: "@ + detail
}

/// What the log says when the data of a dashboard did not load in time.
pub open spec fn timeout_text(dashboard: Seq<char>, waited: int) -> Seq<char> {
    "Dashboard data not completely loaded yet in "@ + decimal(waited) + " seconds for dashboard "@
        + dashboard + "; proceeding with whatever data is loaded until now"@
}

/// The seconds that a failed look says have passed since the first look.
pub open spec fn elapsed_of(event: Event) -> u64 {
    match event {
        Event::Failed { elapsed_secs, .. } => elapsed_secs,
        _ => 0,
    }
}

/// The seconds waited once a look has failed: what the look reports, unless
/// more were slept through already.
pub open spec fn waited_after(s: StateView, event: Event) -> u64 {
    if elapsed_of(event) > s.waited {
        elapsed_of(event)
    } else {
        s.waited
    }
}

/// What the caller is told when a dashboard has no links.
pub open spec fn link_error_text(e: LinkError, period: Seq<char>) -> Seq<char> {
    match e {
        LinkError::MissingTab => missing_tab_text(),
        LinkError::TimeRange(TimeRangeError::InvalidPeriod) => "Invalid period: "@ + period,
        LinkError::TimeRange(TimeRangeError::OutOfRange) => "Period out of range: "@ + period,
    }
}

/// What the caller is told when the mail could not be sent.
pub open spec fn send_failed_text(detail: Seq<char>) -> Seq<char> {
    "Error sending email: "@ + detail
}

/// The state of a request that ends before a browser is launched, or after
/// it was given back.
pub open spec fn finish(s: StateView, failure: Option<FailureView>, response: ResponseView) -> (
    StateView,
    ActionView,
) {
    (StateView { phase: Phase::Finished, failure, ..s }, ActionView::Respond(response))
}

/// The end of a request that failed.
pub open spec fn finish_failed(s: StateView, failure: FailureView) -> (StateView, ActionView) {
    finish(s, Some(failure), plain_response(INTERNAL_SERVER_ERROR, failure.message))
}

/// The browser is given back.
pub open spec fn release(s: StateView) -> (StateView, ActionView) {
    (StateView { phase: Phase::Releasing, session: Session::Released, ..s }, ActionView::Teardown)
}

/// A rendering fails while its browser runs: the failure is kept, a
/// screenshot is taken where it can help, and the browser is given back.
pub open spec fn abort(s: StateView, failure: FailureView, diagnose: bool) -> (
    StateView,
    ActionView,
) {
    if diagnose {
        (
            StateView { phase: Phase::Diagnosing, failure: Some(failure), ..s },
            ActionView::Screenshot { save_to_disk: true },
        )
    } else {
        release(StateView { failure: Some(failure), ..s })
    }
}

/// The state in which every request starts.
pub open spec fn initial(report_type: ReportType) -> StateView {
    StateView {
        phase: Phase::Launching,
        session: Session::NotStarted,
        report_type,
        waited: 0,
        timed_out: false,
        rendering_link: Seq::<char>::empty(),
        email_link: Seq::<char>::empty(),
        artifact: Seq::<u8>::empty(),
        failure: None,
    }
}

/// What a request does first: it is turned away, or a browser is launched
/// in the size that its dashboard asks for.
pub open spec fn begin(job: Job) -> (StateView, ActionView) {
    match validated(job.report) {
        Err(e) => finish(
            initial(ReportType::Cache),
            Some(FailureView { kind: ErrorKind::Validation, message: rejection_text(e) }),
            rejection(e),
        ),
        Ok(report_type) => if dashboard_of(job).tabs@.len() == 0 {
            finish_failed(
                initial(report_type),
                FailureView { kind: ErrorKind::Validation, message: missing_tab_text() },
            )
        } else {
            (
                initial(report_type),
                ActionView::Launch {
                    width: dashboard_of(job).attachment_dimensions.width,
                    height: dashboard_of(job).attachment_dimensions.height,
                },
            )
        },
    }
}

/// Whether a failure in `phase` is worth a screenshot: the page is there, but
/// not what was looked for on it.
pub open spec fn diagnosed(phase: Phase) -> bool {
    phase == Phase::FindingEmail || phase == Phase::FindingPassword || phase == Phase::SelectingOrg
        || phase == Phase::OpeningDashboard || phase == Phase::CheckingMain || phase
        == Phase::CheckingDisplay
}

/// The failure that a failed action of `phase` amounts to.
pub open spec fn failure_in(job: Job, phase: Phase, event: Event) -> FailureView {
    let page_url = page_url_of(event);
    let detail = detail_of(event);
    match phase {
        Phase::Launching => FailureView { kind: ErrorKind::BrowserLaunch, message: detail },
        Phase::OpeningLogin => FailureView { kind: ErrorKind::Login, message: new_page_text() },
        Phase::FindingEmail => FailureView {
            kind: ErrorKind::Login,
            message: lookup_text("email"@, page_url, detail),
        },
        Phase::FindingPassword => FailureView {
            kind: ErrorKind::Login,
            message: lookup_text("password"@, page_url, detail),
        },
        Phase::QuietingLog
        | Phase::SettlingLogin
        | Phase::TypingEmail
        | Phase::TypingPassword
        | Phase::AwaitingLogin
        | Phase::SettlingSession => FailureView { kind: ErrorKind::Login, message: detail },
        Phase::CheckingMain => FailureView {
            kind: ErrorKind::RenderNotReady,
            message: main_missing_text(dashboard_of(job).dashboard@, page_url, detail),
        },
        Phase::CheckingDisplay => FailureView {
            kind: ErrorKind::RenderNotReady,
            message: display_missing_text(dashboard_of(job).dashboard@, page_url, detail),
        },
        Phase::Capturing => FailureView { kind: ErrorKind::Capture, message: detail },
        Phase::Mailing => FailureView {
            kind: ErrorKind::EmailSend,
            message: send_failed_text(detail),
        },
        _ => FailureView { kind: ErrorKind::Navigation, message: detail },
    }
}

/// What follows an action of `phase` that was done, for the phases in which
/// nothing else is to be decided.
pub open spec fn onward(job: Job, s: StateView) -> (StateView, ActionView) {
    match s.phase {
        Phase::Launching => (
            StateView { phase: Phase::OpeningLogin, session: Session::Live, ..s },
            ActionView::NewPage { url: login_link(web_url(job)) },
        ),
        Phase::OpeningLogin => (
            StateView { phase: Phase::QuietingLog, ..s },
            ActionView::DisableLog,
        ),
        Phase::QuietingLog => (
            StateView { phase: Phase::SettlingLogin, ..s },
            ActionView::Sleep { secs: LOGIN_SETTLE_SECS },
        ),
        Phase::SettlingLogin => (
            StateView { phase: Phase::FindingEmail, ..s },
            ActionView::Find { selector: email_selector() },
        ),
        Phase::FindingEmail => (
            StateView { phase: Phase::TypingEmail, ..s },
            ActionView::Type { text: job.settings.user_email@, submit: false },
        ),
        Phase::TypingEmail => (
            StateView { phase: Phase::FindingPassword, ..s },
            ActionView::Find { selector: password_selector() },
        ),
        Phase::FindingPassword => (
            StateView { phase: Phase::TypingPassword, ..s },
            ActionView::Type { text: job.settings.user_password@, submit: true },
        ),
        Phase::TypingPassword => (
            StateView { phase: Phase::AwaitingLogin, ..s },
            ActionView::WaitForNavigation,
        ),
        Phase::AwaitingLogin => (
            StateView { phase: Phase::SettlingSession, ..s },
            ActionView::Sleep { secs: LOGIN_SETTLE_SECS },
        ),
        Phase::SettlingSession => (
            StateView { phase: Phase::ReadingClock, ..s },
            ActionView::ReadClock,
        ),
        Phase::SelectingOrg => (
            StateView { phase: Phase::AwaitingOrg, ..s },
            ActionView::WaitForNavigation,
        ),
        Phase::AwaitingOrg => (
            StateView { phase: Phase::SettlingOrg, ..s },
            ActionView::Sleep { secs: ORG_SETTLE_SECS },
        ),
        Phase::SettlingOrg => (
            StateView { phase: Phase::OpeningDashboard, ..s },
            ActionView::Goto { url: s.rendering_link },
        ),
        Phase::OpeningDashboard => (
            StateView { phase: Phase::AwaitingDashboard, ..s },
            ActionView::WaitForNavigation,
        ),
        Phase::AwaitingDashboard => (
            StateView { phase: Phase::Polling, waited: 0, ..s },
            ActionView::Find { selector: data_marker() },
        ),
        Phase::Polling | Phase::NotingTimeout => (
            StateView { phase: Phase::CheckingMain, ..s },
            ActionView::Find { selector: main_selector() },
        ),
        Phase::CheckingMain => (
            StateView { phase: Phase::CheckingDisplay, ..s },
            ActionView::Find { selector: display_selector() },
        ),
        Phase::CheckingDisplay => match s.report_type {
            ReportType::PDF => (
                StateView { phase: Phase::Capturing, ..s },
                ActionView::PrintPdf { landscape: true },
            ),
            ReportType::PNG => (
                StateView { phase: Phase::Capturing, ..s },
                ActionView::Screenshot { save_to_disk: false },
            ),
            ReportType::Cache => release(s),
        },
        Phase::Pausing => (
            StateView {
                phase: Phase::Polling,
                waited: if s.waited < u64::MAX {
                    (s.waited + 1) as u64
                } else {
                    s.waited
                },
                ..s
            },
            ActionView::Find { selector: data_marker() },
        ),
        Phase::Diagnosing => release(s),
        Phase::Mailing => finish(s, None, plain_response(OK, sent_text())),
        _ => (s, ActionView::Halt),
    }
}

/// What follows once the browser is given back: the failure, if there was
/// one; else the word that the cache is warm, or the mail.
pub open spec fn conclude(job: Job, s: StateView) -> (StateView, ActionView) {
    match s.failure {
        Some(failure) => finish_failed(s, failure),
        None => if s.report_type == ReportType::Cache {
            finish(s, None, plain_response(OK, cached_text(job.report_name@)))
        } else {
            match composed(
                s.artifact,
                s.report_type,
                dashboard_of(job).email_attachment_type,
                texts(job.report.email_details.recipients@),
                job.report.email_details.title@,
                job.report.email_details.message@,
                s.email_link,
                job.settings.from_email@,
                job.settings.reply_to@,
            ) {
                Ok(plan) => (
                    StateView { phase: Phase::Mailing, artifact: Seq::<u8>::empty(), ..s },
                    ActionView::SendEmail(plan),
                ),
                Err(e) => finish_failed(
                    StateView { artifact: Seq::<u8>::empty(), ..s },
                    FailureView { kind: ErrorKind::EmailSend, message: email_error_text(e) },
                ),
            }
        },
    }
}

/// What the orchestrator does with the answer to its last action.
pub open spec fn next(job: Job, s: StateView, event: Event) -> (StateView, ActionView) {
    match s.phase {
        Phase::Finished => (s, ActionView::Halt),
        Phase::Releasing => conclude(job, s),
        Phase::Diagnosing | Phase::Pausing | Phase::NotingTimeout => onward(job, s),
        Phase::Launching => if event is Failed {
            finish_failed(s, failure_in(job, s.phase, event))
        } else {
            onward(job, s)
        },
        Phase::Mailing => if event is Failed {
            finish_failed(s, failure_in(job, s.phase, event))
        } else {
            onward(job, s)
        },
        Phase::ReadingClock => match event {
            Event::Clock { micros } => match links(
                dashboard_of(job),
                job.org_id@,
                web_url(job),
                job.timezone@,
                s.report_type,
                micros as int,
            ) {
                Ok((rendering, email)) => (
                    StateView {
                        phase: Phase::SelectingOrg,
                        rendering_link: rendering,
                        email_link: email,
                        ..s
                    },
                    ActionView::Goto { url: organization_link(web_url(job), job.org_id@) },
                ),
                Err(e) => abort(
                    s,
                    FailureView {
                        kind: ErrorKind::Validation,
                        message: link_error_text(e, dashboard_of(job).timerange.period@),
                    },
                    false,
                ),
            },
            _ => abort(s, failure_in(job, s.phase, event), false),
        },
        Phase::Polling => if event is Failed {
            let waited = waited_after(s, event);
            if waited >= job.settings.data_timeout_secs {
                (
                    StateView { phase: Phase::NotingTimeout, timed_out: true, waited, ..s },
                    ActionView::Log {
                        message: timeout_text(dashboard_of(job).dashboard@, waited as int),
                    },
                )
            } else {
                (
                    StateView { phase: Phase::Pausing, waited, ..s },
                    ActionView::Sleep { secs: POLL_INTERVAL_SECS },
                )
            }
        } else {
            onward(job, s)
        },
        Phase::Capturing => match event {
            Event::Bytes(data) => release(StateView { artifact: data@, ..s }),
            _ => abort(s, failure_in(job, s.phase, event), false),
        },
        _ => if event is Failed {
            abort(s, failure_in(job, s.phase, event), diagnosed(s.phase))
        } else {
            onward(job, s)
        },
    }
}

/// The coarse state that a rendering is in.
pub open spec fn stage(s: StateView) -> Stage {
    if s.failure is Some {
        Stage::Failed
    } else {
        match s.phase {
            Phase::Launching
            | Phase::OpeningLogin
            | Phase::QuietingLog
            | Phase::SettlingLogin
            | Phase::FindingEmail
            | Phase::TypingEmail
            | Phase::FindingPassword
            | Phase::TypingPassword
            | Phase::AwaitingLogin
            | Phase::SettlingSession => Stage::Init,
            Phase::ReadingClock
            | Phase::SelectingOrg
            | Phase::AwaitingOrg
            | Phase::SettlingOrg => Stage::LoggedIn,
            Phase::OpeningDashboard | Phase::AwaitingDashboard => Stage::OrgSelected,
            Phase::Polling | Phase::Pausing | Phase::NotingTimeout => Stage::DashboardLoaded,
            Phase::CheckingMain | Phase::CheckingDisplay | Phase::Diagnosing => Stage::DataReady,
            Phase::Capturing | Phase::Releasing => Stage::Captured,
            Phase::Mailing | Phase::Finished => Stage::Closed,
        }
    }
}

} // verus!
