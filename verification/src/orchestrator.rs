//! The orchestrator of a request: it says what is to be done next, is told
//! what came of it, and says what follows, until the caller is told.
//!
//! It performs nothing itself. Whoever drives it launches the browser, sends
//! the mail and answers the caller; the orchestrator decides, and so every
//! run of it does what [`model::next`] says.

pub mod laws;
pub mod model;
pub mod paths;
pub mod run;

use crate::decimal::push_u64;
use crate::email::compose_with_link;
use crate::report::ReportType;
use crate::router::{cached_response, sent_response, validate, validated, HttpResponse};
use crate::timerange::TimeRangeError;
use crate::url::{dashboard_links, login_url, organization_url, LinkError};
use model::{
    abort, begin, conclude, dashboard_of, failure_in, finish, finish_failed, next, onward, release,
    stage, Action, ActionView, ErrorKind, Event, Failure, Job, Phase, Session, Stage, StateView,
    LOGIN_SETTLE_SECS, ORG_SETTLE_SECS, POLL_INTERVAL_SECS,
};
use run::{lemma_run_step, run};
use vstd::prelude::*;
use vstd::string::*;

verus! {

/// The handling of one request, between two actions.
#[derive(Debug)]
pub struct Orchestrator {
    pub(crate) job: Job,
    pub(crate) phase: Phase,
    pub(crate) session: Session,
    pub(crate) report_type: ReportType,
    pub(crate) waited: u64,
    pub(crate) timed_out: bool,
    pub(crate) rendering_link: String,
    pub(crate) email_link: String,
    pub(crate) artifact: Vec<u8>,
    pub(crate) failure: Option<Failure>,
}

impl View for Orchestrator {
    type V = StateView;

    closed spec fn view(&self) -> StateView {
        StateView {
            phase: self.phase,
            session: self.session,
            report_type: self.report_type,
            waited: self.waited,
            timed_out: self.timed_out,
            rendering_link: self.rendering_link@,
            email_link: self.email_link@,
            artifact: self.artifact@,
            failure: match self.failure {
                Some(failure) => Some(failure@),
                None => None,
            },
        }
    }
}

fn lookup_message(field: &str, page_url: &str, detail: &str) -> (r: String)
    ensures
        r@ == model::lookup_text(field@, page_url@, detail@),
{
    let mut out = String::new();
    out.append("Error finding ");
    out.append(field);
    out.append(" input box: current url: ");
    out.append(page_url);
    out.append(" error: ");
    out.append(detail);
    out
}

fn main_missing_message(dashboard: &str, page_url: &str, detail: &str) -> (r: String)
    ensures
        r@ == model::main_missing_text(dashboard@, page_url@, detail@),
{
    let mut out = String::new();
    out.append("[REPORT] main html element not rendered yet for dashboard ");
    out.append(dashboard);
    out.append("; most likely login failed: current url: ");
    out.append(page_url);
    out.append(" error: ");
    out.append(detail);
    out
}

fn display_missing_message(dashboard: &str, page_url: &str, detail: &str) -> (r: String)
    ensures
        r@ == model::display_missing_text(dashboard@, page_url@, detail@),
{
    let mut out = String::new();
    out.append("[REPORT] div.displayDiv element not rendered yet for dashboard ");
    out.append(dashboard);
    out.append(": current url: ");
    out.append(page_url);
    out.append(" error: ");
    out.append(detail);
    out
}

fn timeout_message(dashboard: &str, waited: u64) -> (r: String)
    ensures
        r@ == model::timeout_text(dashboard@, waited as int),
{
    let mut out = String::new();
    out.append("Dashboard data not completely loaded yet in ");
    push_u64(&mut out, waited);
    out.append(" seconds for dashboard ");
    out.append(dashboard);
    out.append("; proceeding with whatever data is loaded until now");
    out
}

fn link_error_message(e: LinkError, period: &str) -> (r: String)
    ensures
        r@ == model::link_error_text(e, period@),
{
    match e {
        LinkError::MissingTab => "Atleast one tab is required".to_owned(),
        LinkError::TimeRange(TimeRangeError::InvalidPeriod) => {
            let mut out = String::new();
            out.append("Invalid period: ");
            out.append(period);
            out
        },
        LinkError::TimeRange(TimeRangeError::OutOfRange) => {
            let mut out = String::new();
            out.append("Period out of range: ");
            out.append(period);
            out
        },
    }
}

fn send_failed_message(detail: &str) -> (r: String)
    ensures
        r@ == model::send_failed_text(detail@),
{
    let mut out = String::new();
    out.append("Error sending email: ");
    out.append(detail);
    out
}

/// The failure that a failed action of `phase` amounts to.
fn failure_of(job: &Job, phase: Phase, event: Event) -> (r: Failure)
    requires
        phase == Phase::CheckingMain || phase == Phase::CheckingDisplay
            ==> job.report.dashboards@.len() > 0,
    ensures
        r@ == failure_in(*job, phase, event),
{
    let (page_url, detail) = match event {
        Event::Failed { page_url, detail, .. } => (page_url, detail),
        _ => (String::new(), "unexpected answer".to_owned()),
    };
    match phase {
        Phase::Launching => Failure { kind: ErrorKind::BrowserLaunch, message: detail },
        Phase::OpeningLogin => Failure {
            kind: ErrorKind::Login,
            message: "Error creating new page in browser for login".to_owned(),
        },
        Phase::FindingEmail => Failure {
            kind: ErrorKind::Login,
            message: lookup_message("email", page_url.as_str(), detail.as_str()),
        },
        Phase::FindingPassword => Failure {
            kind: ErrorKind::Login,
            message: lookup_message("password", page_url.as_str(), detail.as_str()),
        },
        Phase::QuietingLog
        | Phase::SettlingLogin
        | Phase::TypingEmail
        | Phase::TypingPassword
        | Phase::AwaitingLogin
        | Phase::SettlingSession => Failure { kind: ErrorKind::Login, message: detail },
        Phase::CheckingMain => Failure {
            kind: ErrorKind::RenderNotReady,
            message: main_missing_message(
                job.report.dashboards[0].dashboard.as_str(),
                page_url.as_str(),
                detail.as_str(),
            ),
        },
        Phase::CheckingDisplay => Failure {
            kind: ErrorKind::RenderNotReady,
            message: display_missing_message(
                job.report.dashboards[0].dashboard.as_str(),
                page_url.as_str(),
                detail.as_str(),
            ),
        },
        Phase::Capturing => Failure { kind: ErrorKind::Capture, message: detail },
        Phase::Mailing => Failure {
            kind: ErrorKind::EmailSend,
            message: send_failed_message(detail.as_str()),
        },
        _ => Failure { kind: ErrorKind::Navigation, message: detail },
    }
}

/// What a list of actions holds.
pub open spec fn actions_view(actions: Seq<Action>) -> Seq<ActionView> {
    Seq::new(actions.len(), |i: int| actions[i]@)
}

fn has_failed(event: &Event) -> (r: bool)
    ensures
        r == (*event is Failed),
{
    match event {
        Event::Failed { .. } => true,
        _ => false,
    }
}

impl Orchestrator {
    /// A request in hand is one that was admitted, with a tab to render.
    #[verifier::type_invariant]
    pub closed spec fn admitted(&self) -> bool {
        self.phase != Phase::Finished ==> {
            &&& validated(self.job.report) == Ok::<ReportType, crate::router::ValidationError>(
                self.report_type,
            )
            &&& dashboard_of(self.job).tabs@.len() > 0
        }
    }

    /// The request that is handled.
    pub closed spec fn job(&self) -> Job {
        self.job
    }

    /// Takes up a request and says what is to be done first.
    pub fn start(job: Job) -> (r: (Orchestrator, Action))
        ensures
            r.0.job() == job,
            (r.0@, r.1@) == begin(job),
    {
        match validate(&job.report) {
            Err(e) => {
                let response = e.response();
                let failure = Failure {
                    kind: ErrorKind::Validation,
                    message: response.message.clone(),
                };
                let state = Orchestrator::fresh(job, ReportType::Cache, Phase::Finished, Some(failure));
                (state, Action::Respond(response))
            },
            Ok(report_type) => {
                if job.report.dashboards[0].tabs.len() == 0 {
                    let failure = Failure {
                        kind: ErrorKind::Validation,
                        message: "Atleast one tab is required".to_owned(),
                    };
                    let response = HttpResponse::internal_server_error(failure.message.clone());
                    let state = Orchestrator::fresh(job, report_type, Phase::Finished, Some(failure));
                    (state, Action::Respond(response))
                } else {
                    let width = job.report.dashboards[0].attachment_dimensions.width;
                    let height = job.report.dashboards[0].attachment_dimensions.height;
                    let state = Orchestrator::fresh(job, report_type, Phase::Launching, None);
                    (state, Action::Launch { width, height })
                }
            },
        }
    }

    fn fresh(job: Job, report_type: ReportType, phase: Phase, failure: Option<Failure>) -> (r:
        Orchestrator)
        requires
            phase != Phase::Finished ==> {
                &&& validated(job.report) == Ok::<ReportType, crate::router::ValidationError>(
                    report_type,
                )
                &&& dashboard_of(job).tabs@.len() > 0
            },
        ensures
            r.job() == job,
            r@ == (StateView {
                phase,
                failure: match failure {
                    Some(failure) => Some(failure@),
                    None => None,
                },
                ..model::initial(report_type)
            }),
    {
        Orchestrator {
            job,
            phase,
            session: Session::NotStarted,
            report_type,
            waited: 0,
            timed_out: false,
            rendering_link: String::new(),
            email_link: String::new(),
            artifact: Vec::new(),
            failure,
        }
    }

    /// Whether the caller has been told.
    pub fn is_finished(&self) -> (r: bool)
        ensures
            r == (self@.phase == Phase::Finished),
    {
        self.phase == Phase::Finished
    }

    /// The phase that the request is in.
    pub fn phase(&self) -> (r: Phase)
        ensures
            r == self@.phase,
    {
        self.phase
    }

    /// What has become of the browser.
    pub fn session(&self) -> (r: Session)
        ensures
            r == self@.session,
    {
        self.session
    }

    /// The format in which the dashboard is rendered.
    pub fn report_type(&self) -> (r: ReportType)
        ensures
            r == self@.report_type,
    {
        self.report_type
    }

    /// Whether the wait for the dashboard's data ended before the data was
    /// there.
    pub fn timed_out(&self) -> (r: bool)
        ensures
            r == self@.timed_out,
    {
        self.timed_out
    }

    /// The seconds for which the dashboard's data has been waited for, as
    /// far as is known.
    pub fn waited(&self) -> (r: u64)
        ensures
            r == self@.waited,
    {
        self.waited
    }

    /// The kind of the failure of the request, if it has failed.
    pub fn failure_kind(&self) -> (r: Option<ErrorKind>)
        ensures
            r == match self@.failure {
                Some(failure) => Some(failure.kind),
                None => None,
            },
    {
        match &self.failure {
            Some(failure) => Some(failure.kind),
            None => None,
        }
    }

    /// The coarse state of the rendering.
    pub fn stage(&self) -> (r: Stage)
        ensures
            r == stage(self@),
    {
        if self.failure.is_some() {
            return Stage::Failed;
        }
        match self.phase {
            Phase::Launching
            | Phase::OpeningLogin
            | Phase::QuietingLog
            | Phase::SettlingLogin
            | Phase::FindingEmail
            | Phase::TypingEmail
            | Phase::FindingPassword
            | Phase::TypingPassword
            | Phase::AwaitingLogin
            | Phase::SettlingSession => Stage::Init,
            Phase::ReadingClock
            | Phase::SelectingOrg
            | Phase::AwaitingOrg
            | Phase::SettlingOrg => Stage::LoggedIn,
            Phase::OpeningDashboard | Phase::AwaitingDashboard => Stage::OrgSelected,
            Phase::Polling | Phase::Pausing | Phase::NotingTimeout => Stage::DashboardLoaded,
            Phase::CheckingMain | Phase::CheckingDisplay | Phase::Diagnosing => Stage::DataReady,
            Phase::Capturing | Phase::Releasing => Stage::Captured,
            Phase::Mailing | Phase::Finished => Stage::Closed,
        }
    }

    fn finish(self, failure: Option<Failure>, response: HttpResponse) -> (r: (
        Orchestrator,
        Action,
    ))
        ensures
            r.0.job() == self.job(),
            (r.0@, r.1@) == finish(
                self@,
                match failure {
                    Some(failure) => Some(failure@),
                    None => None,
                },
                response@,
            ),
    {
        (Orchestrator { phase: Phase::Finished, failure, ..self }, Action::Respond(response))
    }

    fn finish_failed(self, failure: Failure) -> (r: (Orchestrator, Action))
        ensures
            r.0.job() == self.job(),
            (r.0@, r.1@) == finish_failed(self@, failure@),
    {
        let response = HttpResponse::internal_server_error(failure.message.clone());
        self.finish(Some(failure), response)
    }

    fn release(self) -> (r: (Orchestrator, Action))
        requires
            self.phase != Phase::Finished,
        ensures
            r.0.job() == self.job(),
            (r.0@, r.1@) == release(self@),
    {
        proof {
            use_type_invariant(&self);
        }
        (
            Orchestrator { phase: Phase::Releasing, session: Session::Released, ..self },
            Action::Teardown,
        )
    }

    fn abort(self, failure: Failure, diagnose: bool) -> (r: (Orchestrator, Action))
        requires
            self.phase != Phase::Finished,
        ensures
            r.0.job() == self.job(),
            (r.0@, r.1@) == abort(self@, failure@, diagnose),
    {
        proof {
            use_type_invariant(&self);
        }
        if diagnose {
            (
                Orchestrator { phase: Phase::Diagnosing, failure: Some(failure), ..self },
                Action::Screenshot { save_to_disk: true },
            )
        } else {
            let kept = Orchestrator { failure: Some(failure), ..self };
            kept.release()
        }
    }

    fn go(self, phase: Phase, action: Action) -> (r: (Orchestrator, Action))
        requires
            self.phase != Phase::Finished,
            phase != Phase::Finished,
        ensures
            r.0.job() == self.job(),
            r.0@ == (StateView { phase, ..self@ }),
            r.1 == action,
    {
        proof {
            use_type_invariant(&self);
        }
        (Orchestrator { phase, ..self }, action)
    }

    fn onward(self) -> (r: (Orchestrator, Action))
        ensures
            r.0.job() == self.job(),
            (r.0@, r.1@) == onward(self.job(), self@),
    {
        proof {
            use_type_invariant(&self);
        }
        match self.phase {
            Phase::Launching => {
                let url = login_url(self.job.report.email_details.dashb_url.as_str());
                (
                    Orchestrator { phase: Phase::OpeningLogin, session: Session::Live, ..self },
                    Action::NewPage { url },
                )
            },
            Phase::OpeningLogin => self.go(Phase::QuietingLog, Action::DisableLog),
            Phase::QuietingLog => self.go(
                Phase::SettlingLogin,
                Action::Sleep { secs: LOGIN_SETTLE_SECS },
            ),
            Phase::SettlingLogin => self.go(
                Phase::FindingEmail,
                Action::Find { selector: "input[type='email']".to_owned() },
            ),
            Phase::FindingEmail => {
                let text = self.job.settings.user_email.clone();
                self.go(Phase::TypingEmail, Action::Type { text, submit: false })
            },
            Phase::TypingEmail => self.go(
                Phase::FindingPassword,
                Action::Find { selector: "input[type='password']".to_owned() },
            ),
            Phase::FindingPassword => {
                let text = self.job.settings.user_password.clone();
                self.go(Phase::TypingPassword, Action::Type { text, submit: true })
            },
            Phase::TypingPassword => self.go(Phase::AwaitingLogin, Action::WaitForNavigation),
            Phase::AwaitingLogin => self.go(
                Phase::SettlingSession,
                Action::Sleep { secs: LOGIN_SETTLE_SECS },
            ),
            Phase::SettlingSession => self.go(Phase::ReadingClock, Action::ReadClock),
            Phase::SelectingOrg => self.go(Phase::AwaitingOrg, Action::WaitForNavigation),
            Phase::AwaitingOrg => self.go(
                Phase::SettlingOrg,
                Action::Sleep { secs: ORG_SETTLE_SECS },
            ),
            Phase::SettlingOrg => {
                let url = self.rendering_link.clone();
                self.go(Phase::OpeningDashboard, Action::Goto { url })
            },
            Phase::OpeningDashboard => self.go(Phase::AwaitingDashboard, Action::WaitForNavigation),
            Phase::AwaitingDashboard => (
                Orchestrator { phase: Phase::Polling, waited: 0, ..self },
                Action::Find { selector: "span#dashboardVariablesAndPanelsDataLoaded".to_owned() },
            ),
            Phase::Polling | Phase::NotingTimeout => self.go(
                Phase::CheckingMain,
                Action::Find { selector: "main".to_owned() },
            ),
            Phase::CheckingMain => self.go(
                Phase::CheckingDisplay,
                Action::Find { selector: "div.displayDiv".to_owned() },
            ),
            Phase::CheckingDisplay => match self.report_type {
                ReportType::PDF => self.go(Phase::Capturing, Action::PrintPdf { landscape: true }),
                ReportType::PNG => self.go(
                    Phase::Capturing,
                    Action::Screenshot { save_to_disk: false },
                ),
                ReportType::Cache => self.release(),
            },
            Phase::Pausing => {
                let waited = if self.waited < u64::MAX {
                    self.waited + 1
                } else {
                    self.waited
                };
                (
                    Orchestrator { phase: Phase::Polling, waited, ..self },
                    Action::Find {
                        selector: "span#dashboardVariablesAndPanelsDataLoaded".to_owned(),
                    },
                )
            },
            Phase::Diagnosing => self.release(),
            Phase::Mailing => self.finish(None, sent_response()),
            _ => (self, Action::Halt),
        }
    }

    fn conclude(self) -> (r: (Orchestrator, Action))
        requires
            self.phase != Phase::Finished,
        ensures
            r.0.job() == self.job(),
            (r.0@, r.1@) == conclude(self.job(), self@),
    {
        proof {
            use_type_invariant(&self);
        }
        let Orchestrator {
            job,
            phase,
            session,
            report_type,
            waited,
            timed_out,
            rendering_link,
            email_link,
            artifact,
            failure,
        } = self;
        match failure {
            Some(failure) => {
                let response = HttpResponse::internal_server_error(failure.message.clone());
                (
                    Orchestrator {
                        job,
                        phase: Phase::Finished,
                        session,
                        report_type,
                        waited,
                        timed_out,
                        rendering_link,
                        email_link,
                        artifact,
                        failure: Some(failure),
                    },
                    Action::Respond(response),
                )
            },
            None => {
                if report_type == ReportType::Cache {
                    let response = cached_response(job.report_name.as_str());
                    (
                        Orchestrator {
                            job,
                            phase: Phase::Finished,
                            session,
                            report_type,
                            waited,
                            timed_out,
                            rendering_link,
                            email_link,
                            artifact,
                            failure: None,
                        },
                        Action::Respond(response),
                    )
                } else {
                    let composed = compose_with_link(
                        artifact,
                        report_type,
                        job.report.dashboards[0].email_attachment_type,
                        &job.report.email_details,
                        email_link.as_str(),
                        job.settings.from_email.as_str(),
                        job.settings.reply_to.as_str(),
                    );
                    match composed {
                        Ok(plan) => (
                            Orchestrator {
                                job,
                                phase: Phase::Mailing,
                                session,
                                report_type,
                                waited,
                                timed_out,
                                rendering_link,
                                email_link,
                                artifact: Vec::new(),
                                failure: None,
                            },
                            Action::SendEmail(plan),
                        ),
                        Err(e) => {
                            let failure = Failure {
                                kind: ErrorKind::EmailSend,
                                message: e.message(),
                            };
                            let response = HttpResponse::internal_server_error(
                                failure.message.clone(),
                            );
                            (
                                Orchestrator {
                                    job,
                                    phase: Phase::Finished,
                                    session,
                                    report_type,
                                    waited,
                                    timed_out,
                                    rendering_link,
                                    email_link,
                                    artifact: Vec::new(),
                                    failure: Some(failure),
                                },
                                Action::Respond(response),
                            )
                        },
                    }
                }
            },
        }
    }

    fn read_clock(self, event: Event) -> (r: (Orchestrator, Action))
        requires
            self.phase == Phase::ReadingClock,
        ensures
            r.0.job() == self.job(),
            (r.0@, r.1@) == next(self.job(), self@, event),
    {
        proof {
            use_type_invariant(&self);
        }
        match event {
            Event::Clock { micros } => {
                let links = dashboard_links(
                    &self.job.report.dashboards[0],
                    self.job.org_id.as_str(),
                    self.job.report.email_details.dashb_url.as_str(),
                    self.job.timezone.as_str(),
                    self.report_type,
                    micros,
                );
                match links {
                    Ok(links) => {
                        let url = organization_url(
                            self.job.report.email_details.dashb_url.as_str(),
                            self.job.org_id.as_str(),
                        );
                        (
                            Orchestrator {
                                phase: Phase::SelectingOrg,
                                rendering_link: links.rendering,
                                email_link: links.email,
                                ..self
                            },
                            Action::Goto { url },
                        )
                    },
                    Err(e) => {
                        let message = link_error_message(
                            e,
                            self.job.report.dashboards[0].timerange.period.as_str(),
                        );
                        self.abort(Failure { kind: ErrorKind::Validation, message }, false)
                    },
                }
            },
            _ => {
                let failure = failure_of(&self.job, Phase::ReadingClock, event);
                self.abort(failure, false)
            },
        }
    }

    fn poll(self, event: Event) -> (r: (Orchestrator, Action))
        requires
            self.phase == Phase::Polling,
        ensures
            r.0.job() == self.job(),
            (r.0@, r.1@) == next(self.job(), self@, event),
    {
        proof {
            use_type_invariant(&self);
        }
        if has_failed(&event) {
            let elapsed = match &event {
                Event::Failed { elapsed_secs, .. } => *elapsed_secs,
                _ => 0,
            };
            let waited = if elapsed > self.waited {
                elapsed
            } else {
                self.waited
            };
            if waited >= self.job.settings.data_timeout_secs as u64 {
                let message = timeout_message(
                    self.job.report.dashboards[0].dashboard.as_str(),
                    waited,
                );
                (
                    Orchestrator { phase: Phase::NotingTimeout, timed_out: true, waited, ..self },
                    Action::Log { message },
                )
            } else {
                (
                    Orchestrator { phase: Phase::Pausing, waited, ..self },
                    Action::Sleep { secs: POLL_INTERVAL_SECS },
                )
            }
        } else {
            self.onward()
        }
    }

    /// Takes the answer to the last action and says what follows.
    pub fn step(self, event: Event) -> (r: (Orchestrator, Action))
        ensures
            r.0.job() == self.job(),
            (r.0@, r.1@) == next(self.job(), self@, event),
    {
        proof {
            use_type_invariant(&self);
        }
        match self.phase {
            Phase::Finished => (self, Action::Halt),
            Phase::Releasing => self.conclude(),
            Phase::Diagnosing | Phase::Pausing | Phase::NotingTimeout => self.onward(),
            Phase::Launching | Phase::Mailing => {
                if has_failed(&event) {
                    let failure = failure_of(&self.job, self.phase, event);
                    self.finish_failed(failure)
                } else {
                    self.onward()
                }
            },
            Phase::ReadingClock => self.read_clock(event),
            Phase::Polling => self.poll(event),
            Phase::Capturing => match event {
                Event::Bytes(data) => {
                    let kept = Orchestrator { artifact: data, ..self };
                    kept.release()
                },
                _ => {
                    let failure = failure_of(&self.job, Phase::Capturing, event);
                    self.abort(failure, false)
                },
            },
            _ => {
                if has_failed(&event) {
                    let phase = self.phase;
                    let diagnose = phase == Phase::FindingEmail || phase == Phase::FindingPassword
                        || phase == Phase::SelectingOrg || phase == Phase::OpeningDashboard
                        || phase == Phase::CheckingMain || phase == Phase::CheckingDisplay;
                    let failure = failure_of(&self.job, phase, event);
                    self.abort(failure, diagnose)
                } else {
                    self.onward()
                }
            },
        }
    }

    /// Handles a request with the answers given in advance: the state after
    /// the last of them, and every action that was asked for, the first
    /// included. Nothing is performed.
    pub fn replay(job: Job, events: Vec<Event>) -> (r: (Orchestrator, Vec<Action>))
        ensures
            r.0.job() == job,
            (r.0@, actions_view(r.1@)) == run(job, events@),
    {
        let ghost all = events@;
        let mut events = events;
        let (mut state, first) = Orchestrator::start(job);
        let mut actions: Vec<Action> = Vec::new();
        actions.push(first);
        let ghost mut done: Seq<Event> = Seq::empty();
        while events.len() > 0
            invariant
                state.job() == job,
                done + events@ == all,
                (state@, actions_view(actions@)) == run(job, done),
            decreases events.len(),
        {
            let event = events.remove(0);
            proof {
                lemma_run_step(job, done, event);
            }
            let (after, action) = state.step(event);
            state = after;
            actions.push(action);
            proof {
                done = done.push(event);
            }
        }
        (state, actions)
    }
}

} // verus!
