use o2_report_generator::email::{AttachmentPlan, EmailPlan};
use o2_report_generator::orchestrator::model::{
    Action, ErrorKind, Event, Job, Phase, Session, Settings, Stage,
};
use o2_report_generator::orchestrator::Orchestrator;
use o2_report_generator::router::HttpResponse;
use o2_report_generator::{
    EmailAttachmentType, EmailDetails, Report, ReportAttachmentDimensions, ReportDashboard,
    ReportDashboardVariable, ReportTimerange, ReportTimerangeType, ReportType,
};

const TICK: i64 = 1_700_000_000_000_000;
const PAGE: &str = "Ok(Some(\"http://localhost:5080/web/login\"))";
const MARKER: &str = "span#dashboardVariablesAndPanelsDataLoaded";
const RENDERING: &str = "http://localhost:5080/web/dashboards/view?org_identifier=org1&dashboard=dash1&folder=default&tab=tab1&refresh=Off&searchtype=reports&period=30m&timezone=Europe/London&var-Dynamic+filters=%255B%255D&print=true&var-region=eu";
const MAILED: &str = "http://localhost:5080/web/dashboards/view?org_identifier=org1&dashboard=dash1&folder=default&tab=tab1&refresh=Off&from=1699998200000000&to=1700000000000000&timezone=Europe/London&var-Dynamic+filters=%255B%255D&print=true&var-region=eu";

fn the_dashboard(report_type: ReportType, disposition: EmailAttachmentType) -> ReportDashboard {
    ReportDashboard {
        dashboard: "dash1".to_string(),
        folder: "default".to_string(),
        tabs: vec!["tab1".to_string()],
        variables: vec![ReportDashboardVariable {
            key: "region".to_string(),
            value: "eu".to_string(),
            id: None,
        }],
        timerange: ReportTimerange {
            range_type: ReportTimerangeType::Relative,
            period: "30m".to_string(),
            from: 0,
            to: 0,
        },
        report_type,
        email_attachment_type: disposition,
        attachment_dimensions: ReportAttachmentDimensions { height: 730, width: 1370 },
    }
}

fn the_job(dashboards: Vec<ReportDashboard>, recipients: Vec<&str>, timeout: u16) -> Job {
    Job {
        report: Report {
            dashboards,
            email_details: EmailDetails {
                recipients: recipients.iter().map(|r| r.to_string()).collect(),
                title: "Weekly: Sales".to_string(),
                name: "weekly".to_string(),
                message: "Here it is.".to_string(),
                dashb_url: "http://localhost:5080/web".to_string(),
            },
        },
        org_id: "org1".to_string(),
        report_name: "weekly".to_string(),
        timezone: "Europe/London".to_string(),
        settings: Settings {
            user_email: "bot@example.com".to_string(),
            user_password: "secret".to_string(),
            data_timeout_secs: timeout,
            from_email: "reports@example.com".to_string(),
            reply_to: String::new(),
        },
    }
}

fn a_pdf_job() -> Job {
    the_job(
        vec![the_dashboard(ReportType::PDF, EmailAttachmentType::Standard)],
        vec!["a@example.com"],
        3,
    )
}

/// A stand-in for the browser, the clock and the mail transport, which
/// counts what it is asked for.
struct StandIn {
    /// The place, among all actions, of the one that fails; none, if `None`.
    fails_at: Option<usize>,
    /// The look at which the data of the dashboard is there; never, if `None`.
    loaded_at_look: Option<u32>,
    /// The seconds that each look for the data takes.
    look_takes: u64,
    /// The seconds that have passed, by the sleeps and the looks.
    clock: u64,
    /// The second at which the data was first looked for.
    looking_since: Option<u64>,
    launches: u32,
    teardowns: u32,
    mails: u32,
    looks: u32,
    asked: Vec<Action>,
}

fn stand_in(fails_at: Option<usize>, loaded_at_look: Option<u32>) -> StandIn {
    StandIn {
        fails_at,
        loaded_at_look,
        look_takes: 0,
        clock: 0,
        looking_since: None,
        launches: 0,
        teardowns: 0,
        mails: 0,
        looks: 0,
        asked: vec![],
    }
}

fn boom() -> Event {
    Event::Failed { page_url: PAGE.to_string(), detail: "boom".to_string(), elapsed_secs: 0 }
}

fn perform(double: &mut StandIn, action: &Action) -> Event {
    let place = double.asked.len();
    double.asked.push(action.clone());
    match action {
        Action::Launch { .. } => double.launches += 1,
        Action::Teardown => double.teardowns += 1,
        Action::SendEmail(_) => double.mails += 1,
        _ => {}
    }
    if double.fails_at == Some(place) {
        return boom();
    }
    match action {
        Action::Find { selector } if selector == MARKER => {
            double.looks += 1;
            let since = *double.looking_since.get_or_insert(double.clock);
            double.clock += double.look_takes;
            if double.loaded_at_look == Some(double.looks) {
                Event::Done
            } else {
                Event::Failed {
                    page_url: PAGE.to_string(),
                    detail: "not found".to_string(),
                    elapsed_secs: double.clock - since,
                }
            }
        }
        Action::Sleep { secs } => {
            double.clock += secs;
            Event::Done
        }
        Action::ReadClock => Event::Clock { micros: TICK },
        Action::PrintPdf { .. } => Event::Bytes(vec![37, 80, 68, 70]),
        Action::Screenshot { .. } => Event::Bytes(vec![137, 80, 78, 71]),
        _ => Event::Done,
    }
}

fn drive(job: Job, double: &mut StandIn) -> (Orchestrator, HttpResponse) {
    let (mut state, mut action) = Orchestrator::start(job);
    loop {
        if let Action::Respond(response) = &action {
            double.asked.push(action.clone());
            return (state, response.clone());
        }
        assert!(double.asked.len() < 10_000, "the request does not end");
        let event = perform(double, &action);
        let (after, next) = state.step(event);
        state = after;
        action = next;
    }
}

fn way_in() -> Vec<Action> {
    vec![
        Action::Launch { width: 1370, height: 730 },
        Action::NewPage {
            url: "http://localhost:5080/web/login?login_as_internal_user=true".to_string(),
        },
        Action::DisableLog,
        Action::Sleep { secs: 5 },
        Action::Find { selector: "input[type='email']".to_string() },
        Action::Type { text: "bot@example.com".to_string(), submit: false },
        Action::Find { selector: "input[type='password']".to_string() },
        Action::Type { text: "secret".to_string(), submit: true },
        Action::WaitForNavigation,
        Action::Sleep { secs: 5 },
        Action::ReadClock,
        Action::Goto { url: "http://localhost:5080/web/?org_identifier=org1".to_string() },
        Action::WaitForNavigation,
        Action::Sleep { secs: 2 },
        Action::Goto { url: RENDERING.to_string() },
        Action::WaitForNavigation,
        Action::Find { selector: MARKER.to_string() },
    ]
}

fn the_mail(attachment: AttachmentPlan, html: &str) -> EmailPlan {
    EmailPlan {
        from: "reports@example.com".to_string(),
        reply_to: String::new(),
        to: vec!["a@example.com".to_string()],
        subject: "Openobserve Report - Weekly: Sales".to_string(),
        html: html.to_string(),
        attachment,
    }
}

#[test]
fn a_pdf_report_is_rendered_and_mailed() {
    let mut double = stand_in(None, Some(1));
    let (state, response) = drive(a_pdf_job(), &mut double);
    let mut expected = way_in();
    expected.extend(vec![
        Action::Find { selector: "main".to_string() },
        Action::Find { selector: "div.displayDiv".to_string() },
        Action::PrintPdf { landscape: true },
        Action::Teardown,
        Action::SendEmail(the_mail(
            AttachmentPlan {
                name: "Weekly__Sales.pdf".to_string(),
                content_type: "application/pdf".to_string(),
                inline: false,
                data: vec![37, 80, 68, 70],
            },
            &format!(
                "Here it is.\n\n<p><a href='{}' target='_blank'>Link to dashboard</a></p>",
                MAILED
            ),
        )),
        Action::Respond(HttpResponse::new("report sent to emails successfully".to_string(), 200)),
    ]);
    assert_eq!(double.asked, expected);
    assert_eq!(response.code, 200);
    assert_eq!((double.launches, double.teardowns, double.mails), (1, 1, 1));
    assert!(state.is_finished());
    assert_eq!(state.failure_kind(), None);
    assert_eq!(state.session(), Session::Released);
    assert_eq!(state.stage(), Stage::Closed);
    assert!(!state.timed_out());
    assert_eq!(state.report_type(), ReportType::PDF);
}

#[test]
fn a_png_report_is_captured_as_a_screenshot_and_shown_inline() {
    let job = the_job(
        vec![the_dashboard(ReportType::PNG, EmailAttachmentType::Inline)],
        vec!["a@example.com"],
        3,
    );
    let mut double = stand_in(None, Some(1));
    let (_, response) = drive(job, &mut double);
    assert_eq!(response, HttpResponse::new("report sent to emails successfully".to_string(), 200));
    assert_eq!(double.asked[19], Action::Screenshot { save_to_disk: false });
    assert_eq!(double.asked[20], Action::Teardown);
    match &double.asked[21] {
        Action::SendEmail(plan) => {
            assert_eq!(plan.attachment.name, "Weekly__Sales.png");
            assert_eq!(plan.attachment.content_type, "image/png");
            assert!(plan.attachment.inline);
            assert_eq!(plan.attachment.data, vec![137, 80, 78, 71]);
            assert!(plan.html.contains("<img src='cid:Weekly__Sales.png'"));
            assert!(plan.html.contains(MAILED));
        }
        other => panic!("no mail but {:?}", other),
    }
    assert_eq!((double.launches, double.teardowns, double.mails), (1, 1, 1));
}

#[test]
fn a_report_without_recipients_only_warms_the_cache() {
    let job = the_job(vec![the_dashboard(ReportType::PDF, EmailAttachmentType::Standard)], vec![], 3);
    let mut double = stand_in(None, Some(1));
    let (state, response) = drive(job, &mut double);
    assert_eq!(response, HttpResponse::new("dashboard data cached by report weekly".to_string(), 200));
    let mut expected = way_in();
    expected[14] = Action::Goto { url: RENDERING.replace("searchtype=reports", "searchtype=ui") };
    expected.extend(vec![
        Action::Find { selector: "main".to_string() },
        Action::Find { selector: "div.displayDiv".to_string() },
        Action::Teardown,
        Action::Respond(HttpResponse::new(
            "dashboard data cached by report weekly".to_string(),
            200,
        )),
    ]);
    assert_eq!(double.asked, expected);
    assert_eq!((double.launches, double.teardowns, double.mails), (1, 1, 0));
    assert_eq!(state.report_type(), ReportType::Cache);
    assert_eq!(state.failure_kind(), None);
}

#[test]
fn an_inline_pdf_without_recipients_only_warms_the_cache() {
    let job = the_job(vec![the_dashboard(ReportType::PDF, EmailAttachmentType::Inline)], vec![], 3);
    let mut double = stand_in(None, Some(1));
    let (_, response) = drive(job, &mut double);
    assert_eq!(response.code, 200);
    assert_eq!((double.launches, double.teardowns, double.mails), (1, 1, 0));
}

#[test]
fn a_request_without_dashboards_is_a_bad_request_and_launches_nothing() {
    let job = the_job(vec![], vec!["a@example.com"], 3);
    let mut double = stand_in(None, Some(1));
    let (state, response) = drive(job, &mut double);
    assert_eq!(
        response,
        HttpResponse::new(
            "At least 1 dashboard must be provided when sending a report".to_string(),
            400
        )
    );
    assert_eq!(double.asked.len(), 1);
    assert_eq!((double.launches, double.teardowns, double.mails), (0, 0, 0));
    assert_eq!(state.failure_kind(), Some(ErrorKind::Validation));
    assert_eq!(state.session(), Session::NotStarted);
    assert_eq!(state.stage(), Stage::Failed);
}

#[test]
fn an_inline_pdf_is_a_conflict_and_launches_nothing() {
    let job = the_job(
        vec![the_dashboard(ReportType::PDF, EmailAttachmentType::Inline)],
        vec!["a@example.com"],
        3,
    );
    let mut double = stand_in(None, Some(1));
    let (state, response) = drive(job, &mut double);
    assert_eq!(
        response,
        HttpResponse::new(
            "Most email servers do not support inline PDF attachments, for inline attachments please use a PNG.".to_string(),
            409
        )
    );
    assert_eq!(double.asked.len(), 1);
    assert_eq!((double.launches, double.teardowns, double.mails), (0, 0, 0));
    assert_eq!(state.failure_kind(), Some(ErrorKind::Validation));
}

#[test]
fn a_dashboard_without_tabs_fails_before_the_launch() {
    let mut dashboard = the_dashboard(ReportType::PDF, EmailAttachmentType::Standard);
    dashboard.tabs.clear();
    let mut double = stand_in(None, Some(1));
    let (state, response) = drive(the_job(vec![dashboard], vec!["a@example.com"], 3), &mut double);
    assert_eq!(response, HttpResponse::new("Atleast one tab is required".to_string(), 500));
    assert_eq!((double.launches, double.teardowns), (0, 0));
    assert_eq!(state.failure_kind(), Some(ErrorKind::Validation));
}

#[test]
fn once_the_caller_is_told_nothing_more_is_asked_for() {
    let (state, action) = Orchestrator::start(the_job(vec![], vec![], 3));
    assert!(matches!(action, Action::Respond(_)));
    assert!(state.is_finished());
    let (state, action) = state.step(Event::Done);
    assert_eq!(action, Action::Halt);
    let (state, action) = state.step(boom());
    assert_eq!(action, Action::Halt);
    let (state, action) = state.step(Event::Bytes(vec![1]));
    assert_eq!(action, Action::Halt);
    assert!(state.is_finished());
    assert_eq!(state.phase(), Phase::Finished);
}

#[test]
fn a_browser_that_does_not_launch_fails_the_request_without_teardown() {
    let mut double = stand_in(Some(0), Some(1));
    let (state, response) = drive(a_pdf_job(), &mut double);
    assert_eq!(response, HttpResponse::new("boom".to_string(), 500));
    assert_eq!((double.launches, double.teardowns, double.mails), (1, 0, 0));
    assert_eq!(state.failure_kind(), Some(ErrorKind::BrowserLaunch));
    assert_eq!(state.session(), Session::NotStarted);
}

#[test]
fn teardown_runs_exactly_once_wherever_the_request_fails() {
    // Places 1 to 20 are the actions between the launch and the teardown of a
    // run in which nothing fails; 16 is the look for the data, whose failure
    // is no failure of the request.
    for place in 1..=20usize {
        let mut double = stand_in(Some(place), Some(1));
        let (state, response) = drive(a_pdf_job(), &mut double);
        assert_eq!(double.launches, 1, "place {}", place);
        assert_eq!(double.teardowns, 1, "place {}", place);
        assert_eq!(state.session(), Session::Released, "place {}", place);
        assert!(state.is_finished());
        if place == 16 || place == 20 {
            assert_eq!(response.code, 200, "place {}", place);
        } else {
            assert_eq!(response.code, 500, "place {}", place);
            assert_eq!(double.mails, 0, "place {}", place);
            assert_eq!(state.stage(), Stage::Failed);
            assert_eq!(double.asked[double.asked.len() - 2], Action::Teardown);
        }
    }
}

#[test]
fn teardown_runs_exactly_once_when_the_mail_fails() {
    let mut double = stand_in(Some(21), Some(1));
    let (state, response) = drive(a_pdf_job(), &mut double);
    assert_eq!(response, HttpResponse::new("Error sending email: boom".to_string(), 500));
    assert_eq!((double.launches, double.teardowns, double.mails), (1, 1, 1));
    assert_eq!(state.failure_kind(), Some(ErrorKind::EmailSend));
}

#[test]
fn a_failing_teardown_does_not_change_the_outcome() {
    let mut double = stand_in(Some(20), Some(1));
    let (state, response) = drive(a_pdf_job(), &mut double);
    assert_eq!(double.asked[20], Action::Teardown);
    assert_eq!(response, HttpResponse::new("report sent to emails successfully".to_string(), 200));
    assert_eq!(state.failure_kind(), None);
    assert_eq!((double.teardowns, double.mails), (1, 1));
}

#[test]
fn the_kind_and_the_words_of_each_failure() {
    let cases: Vec<(usize, ErrorKind, String, bool)> = vec![
        (1, ErrorKind::Login, "Error creating new page in browser for login".to_string(), false),
        (2, ErrorKind::Login, "boom".to_string(), false),
        (3, ErrorKind::Login, "boom".to_string(), false),
        (
            4,
            ErrorKind::Login,
            format!("Error finding email input box: current url: {} error: boom", PAGE),
            true,
        ),
        (5, ErrorKind::Login, "boom".to_string(), false),
        (
            6,
            ErrorKind::Login,
            format!("Error finding password input box: current url: {} error: boom", PAGE),
            true,
        ),
        (7, ErrorKind::Login, "boom".to_string(), false),
        (8, ErrorKind::Login, "boom".to_string(), false),
        (9, ErrorKind::Login, "boom".to_string(), false),
        (10, ErrorKind::Navigation, "boom".to_string(), false),
        (11, ErrorKind::Navigation, "boom".to_string(), true),
        (12, ErrorKind::Navigation, "boom".to_string(), false),
        (13, ErrorKind::Navigation, "boom".to_string(), false),
        (14, ErrorKind::Navigation, "boom".to_string(), true),
        (15, ErrorKind::Navigation, "boom".to_string(), false),
        (
            17,
            ErrorKind::RenderNotReady,
            format!("[REPORT] main html element not rendered yet for dashboard dash1; most likely login failed: current url: {} error: boom", PAGE),
            true,
        ),
        (
            18,
            ErrorKind::RenderNotReady,
            format!("[REPORT] div.displayDiv element not rendered yet for dashboard dash1: current url: {} error: boom", PAGE),
            true,
        ),
        (19, ErrorKind::Capture, "boom".to_string(), false),
    ];
    for (place, kind, words, diagnosed) in cases {
        let mut double = stand_in(Some(place), Some(1));
        let (state, response) = drive(a_pdf_job(), &mut double);
        assert_eq!(state.failure_kind(), Some(kind), "place {}", place);
        assert_eq!(response, HttpResponse::new(words, 500), "place {}", place);
        let after: Vec<Action> = double.asked[place + 1..].to_vec();
        if diagnosed {
            assert_eq!(after.len(), 3, "place {}", place);
            assert_eq!(after[0], Action::Screenshot { save_to_disk: true });
            assert_eq!(after[1], Action::Teardown);
        } else {
            assert_eq!(after.len(), 2, "place {}", place);
            assert_eq!(after[0], Action::Teardown);
        }
    }
}

#[test]
fn a_failing_diagnostic_screenshot_does_not_mask_the_failure() {
    let (mut state, mut action) = Orchestrator::start(a_pdf_job());
    for _ in 0..4 {
        let (after, next) = state.step(Event::Done);
        state = after;
        action = next;
    }
    assert_eq!(action, Action::Find { selector: "input[type='email']".to_string() });
    let (state, action) = state.step(Event::Failed {
        page_url: "about:blank".to_string(),
        detail: "no such element".to_string(),
        elapsed_secs: 0,
    });
    assert_eq!(action, Action::Screenshot { save_to_disk: true });
    assert_eq!(state.phase(), Phase::Diagnosing);
    let (state, action) = state.step(Event::Failed {
        page_url: String::new(),
        detail: "screenshot failed".to_string(),
        elapsed_secs: 0,
    });
    assert_eq!(action, Action::Teardown);
    let (state, action) = state.step(Event::Failed {
        page_url: String::new(),
        detail: "close failed".to_string(),
        elapsed_secs: 0,
    });
    assert_eq!(
        action,
        Action::Respond(HttpResponse::new(
            "Error finding email input box: current url: about:blank error: no such element"
                .to_string(),
            500
        ))
    );
    assert_eq!(state.failure_kind(), Some(ErrorKind::Login));
}

#[test]
fn data_that_never_loads_is_no_failure() {
    let mut double = stand_in(None, None);
    let (state, response) = drive(a_pdf_job(), &mut double);
    assert_eq!(response, HttpResponse::new("report sent to emails successfully".to_string(), 200));
    assert!(state.timed_out());
    assert_eq!(state.failure_kind(), None);
    assert_eq!(double.looks, 4);
    let waiting: Vec<Action> = double.asked[16..24].to_vec();
    assert_eq!(
        waiting,
        vec![
            Action::Find { selector: MARKER.to_string() },
            Action::Sleep { secs: 1 },
            Action::Find { selector: MARKER.to_string() },
            Action::Sleep { secs: 1 },
            Action::Find { selector: MARKER.to_string() },
            Action::Sleep { secs: 1 },
            Action::Find { selector: MARKER.to_string() },
            Action::Log {
                message: "Dashboard data not completely loaded yet in 3 seconds for dashboard dash1; proceeding with whatever data is loaded until now".to_string()
            },
        ]
    );
    assert_eq!(double.asked[24], Action::Find { selector: "main".to_string() });
    assert_eq!(double.asked[26], Action::PrintPdf { landscape: true });
    assert_eq!((double.launches, double.teardowns, double.mails), (1, 1, 1));
}

#[test]
fn a_timeout_of_zero_looks_once() {
    let job = the_job(
        vec![the_dashboard(ReportType::PDF, EmailAttachmentType::Standard)],
        vec!["a@example.com"],
        0,
    );
    let mut double = stand_in(None, None);
    let (state, response) = drive(job, &mut double);
    assert_eq!(response.code, 200);
    assert_eq!(double.looks, 1);
    assert!(state.timed_out());
    assert!(matches!(&double.asked[17], Action::Log { message } if message.starts_with("Dashboard data not completely loaded yet in 0 seconds")));
}

#[test]
fn data_that_loads_late_but_in_time_ends_the_wait() {
    let mut double = stand_in(None, Some(3));
    let (state, response) = drive(a_pdf_job(), &mut double);
    assert_eq!(response.code, 200);
    assert!(!state.timed_out());
    assert_eq!(double.looks, 3);
    assert!(!double.asked.iter().any(|a| matches!(a, Action::Log { .. })));
    assert_eq!(double.asked[21], Action::Find { selector: "main".to_string() });
}

#[test]
fn data_that_loads_at_the_last_look_is_in_time() {
    let mut double = stand_in(None, Some(4));
    let (state, response) = drive(a_pdf_job(), &mut double);
    assert_eq!(response.code, 200);
    assert!(!state.timed_out());
    assert_eq!(double.looks, 4);
}

#[test]
fn a_period_that_is_none_fails_the_request_after_the_login() {
    let mut dashboard = the_dashboard(ReportType::PDF, EmailAttachmentType::Standard);
    dashboard.timerange.period = "soon".to_string();
    let mut double = stand_in(None, Some(1));
    let (state, response) = drive(the_job(vec![dashboard], vec!["a@example.com"], 3), &mut double);
    assert_eq!(response, HttpResponse::new("Invalid period: soon".to_string(), 500));
    assert_eq!(state.failure_kind(), Some(ErrorKind::Validation));
    assert_eq!(double.asked.len(), 13);
    assert_eq!(double.asked[11], Action::Teardown);
    assert_eq!((double.launches, double.teardowns), (1, 1));
}

#[test]
fn a_period_beyond_the_clock_fails_the_request_after_the_login() {
    let mut dashboard = the_dashboard(ReportType::PDF, EmailAttachmentType::Standard);
    dashboard.timerange.period = "9223372036854775807w".to_string();
    let mut double = stand_in(None, Some(1));
    let (_, response) = drive(the_job(vec![dashboard], vec!["a@example.com"], 3), &mut double);
    assert_eq!(
        response,
        HttpResponse::new("Period out of range: 9223372036854775807w".to_string(), 500)
    );
    assert_eq!(double.teardowns, 1);
}

#[test]
fn an_answer_that_is_no_clock_fails_the_request() {
    let (mut state, mut action) = Orchestrator::start(a_pdf_job());
    for _ in 0..10 {
        let (after, next) = state.step(Event::Done);
        state = after;
        action = next;
    }
    assert_eq!(action, Action::ReadClock);
    let (state, action) = state.step(Event::Done);
    assert_eq!(action, Action::Teardown);
    let (state, action) = state.step(Event::Done);
    assert_eq!(action, Action::Respond(HttpResponse::new("unexpected answer".to_string(), 500)));
    assert_eq!(state.failure_kind(), Some(ErrorKind::Navigation));
}

#[test]
fn a_capture_without_bytes_is_a_failure() {
    let (mut state, mut action) = Orchestrator::start(a_pdf_job());
    for place in 0..19 {
        let event = if place == 10 { Event::Clock { micros: TICK } } else { Event::Done };
        let (after, next) = state.step(event);
        state = after;
        action = next;
    }
    assert_eq!(action, Action::PrintPdf { landscape: true });
    assert_eq!(state.stage(), Stage::Captured);
    let (state, action) = state.step(Event::Done);
    assert_eq!(action, Action::Teardown);
    assert_eq!(state.failure_kind(), Some(ErrorKind::Capture));
    let (_, action) = state.step(Event::Done);
    assert_eq!(action, Action::Respond(HttpResponse::new("unexpected answer".to_string(), 500)));
}

#[test]
fn the_stages_of_a_rendering_in_order() {
    let (mut state, _) = Orchestrator::start(a_pdf_job());
    let mut stages = vec![state.stage()];
    let mut phases = vec![state.phase()];
    for place in 0..22 {
        let event = match place {
            10 => Event::Clock { micros: TICK },
            19 => Event::Bytes(vec![1]),
            _ => Event::Done,
        };
        let (after, _) = state.step(event);
        state = after;
        if *stages.last().unwrap() != state.stage() {
            stages.push(state.stage());
        }
        phases.push(state.phase());
    }
    assert_eq!(
        stages,
        vec![
            Stage::Init,
            Stage::LoggedIn,
            Stage::OrgSelected,
            Stage::DashboardLoaded,
            Stage::DataReady,
            Stage::Captured,
            Stage::Closed,
        ]
    );
    assert_eq!(phases[0], Phase::Launching);
    assert_eq!(phases[10], Phase::ReadingClock);
    assert_eq!(phases[16], Phase::Polling);
    assert_eq!(phases[20], Phase::Releasing);
    assert_eq!(phases[21], Phase::Mailing);
    assert_eq!(phases[22], Phase::Finished);
}

#[test]
fn the_browser_lives_from_the_launch_to_the_teardown() {
    let (mut state, _) = Orchestrator::start(a_pdf_job());
    assert_eq!(state.session(), Session::NotStarted);
    let mut sessions = vec![];
    for place in 0..22 {
        let event = match place {
            10 => Event::Clock { micros: TICK },
            19 => Event::Bytes(vec![1]),
            _ => Event::Done,
        };
        let (after, _) = state.step(event);
        state = after;
        sessions.push(state.session());
    }
    assert!(sessions[..19].iter().all(|s| *s == Session::Live));
    assert!(sessions[19..].iter().all(|s| *s == Session::Released));
}

#[test]
fn the_window_is_as_large_as_the_dashboard_asks() {
    let mut dashboard = the_dashboard(ReportType::PDF, EmailAttachmentType::Standard);
    dashboard.attachment_dimensions = ReportAttachmentDimensions { height: 600, width: 800 };
    let (_, action) = Orchestrator::start(the_job(vec![dashboard], vec!["a@example.com"], 3));
    assert_eq!(action, Action::Launch { width: 800, height: 600 });
}

fn smooth_answers() -> Vec<Event> {
    let mut answers = vec![Event::Done; 22];
    answers[10] = Event::Clock { micros: TICK };
    answers[19] = Event::Bytes(vec![37, 80, 68, 70]);
    answers
}

#[test]
fn a_replay_asks_for_what_a_driven_request_asks_for() {
    let mut double = stand_in(None, Some(1));
    let (driven, _) = drive(a_pdf_job(), &mut double);
    let (replayed, actions) = Orchestrator::replay(a_pdf_job(), smooth_answers());
    assert_eq!(actions, double.asked);
    assert_eq!(replayed.phase(), driven.phase());
    assert_eq!(replayed.session(), driven.session());
    assert_eq!(replayed.failure_kind(), driven.failure_kind());
}

#[test]
fn a_replay_without_answers_is_the_first_action() {
    let (state, actions) = Orchestrator::replay(a_pdf_job(), vec![]);
    assert_eq!(actions, vec![Action::Launch { width: 1370, height: 730 }]);
    assert_eq!(state.phase(), Phase::Launching);
}

#[test]
fn a_replay_gives_the_browser_back_once_whichever_answer_fails() {
    for place in 0..22usize {
        let mut answers = smooth_answers();
        answers[place] = boom();
        // More answers than any request takes: what comes after the end is not asked for.
        answers.extend(vec![Event::Done; 40]);
        let (state, actions) = Orchestrator::replay(a_pdf_job(), answers);
        let teardowns = actions.iter().filter(|a| **a == Action::Teardown).count();
        let launches = actions.iter().filter(|a| matches!(a, Action::Launch { .. })).count();
        let answers_given = actions.iter().filter(|a| matches!(a, Action::Respond(_))).count();
        let mails = actions.iter().filter(|a| matches!(a, Action::SendEmail(_))).count();
        assert!(state.is_finished(), "place {}", place);
        assert_eq!(launches, 1, "place {}", place);
        assert_eq!(teardowns, if place == 0 { 0 } else { 1 }, "place {}", place);
        assert_eq!(answers_given, 1, "place {}", place);
        assert!(mails <= 1, "place {}", place);
        assert_ne!(state.session(), Session::Live, "place {}", place);
    }
}

#[test]
fn every_request_ends_within_its_bound() {
    // Twenty-three answers and two for each second of the wait, whatever they are.
    let timeout: u16 = 3;
    let bound = 23 + 2 * timeout as usize;
    let kinds = [
        Event::Done,
        Event::Failed { page_url: String::new(), detail: "no".to_string(), elapsed_secs: 1 },
        Event::Bytes(vec![1]),
        Event::Clock { micros: TICK },
    ];
    for seed in 0..200u64 {
        let mut answers = vec![];
        let mut x: u64 = seed.wrapping_mul(2654435761).wrapping_add(12345);
        for _ in 0..bound {
            x = x.wrapping_mul(6364136223846793005).wrapping_add(1442695040888963407);
            answers.push(kinds[((x >> 33) % 4) as usize].clone());
        }
        let job = the_job(
            vec![the_dashboard(ReportType::PNG, EmailAttachmentType::Standard)],
            vec!["a@example.com"],
            timeout,
        );
        let (state, actions) = Orchestrator::replay(job, answers);
        assert!(state.is_finished(), "seed {}", seed);
        let teardowns = actions.iter().filter(|a| **a == Action::Teardown).count();
        assert!(teardowns <= 1, "seed {}", seed);
        assert_ne!(state.session(), Session::Live, "seed {}", seed);
    }
}

#[test]
fn the_slowest_request_takes_every_answer_of_its_bound() {
    let timeout: u16 = 3;
    let mut answers = smooth_answers();
    // The data never loads: seven answers of waiting and one for the note in the log.
    let late = vec![
        Event::Failed {
            page_url: String::new(),
            detail: "not found".to_string(),
            elapsed_secs: 0,
        },
        Event::Done,
        Event::Failed {
            page_url: String::new(),
            detail: "not found".to_string(),
            elapsed_secs: 0,
        },
        Event::Done,
        Event::Failed {
            page_url: String::new(),
            detail: "not found".to_string(),
            elapsed_secs: 0,
        },
        Event::Done,
        Event::Failed {
            page_url: String::new(),
            detail: "not found".to_string(),
            elapsed_secs: 0,
        },
        Event::Done,
    ];
    let tail = answers.split_off(17);
    answers.pop();
    answers.extend(late);
    answers.extend(tail);
    assert_eq!(answers.len(), 23 + 2 * timeout as usize);
    let all = answers.len();
    let (state, _) = Orchestrator::replay(a_pdf_job(), answers.clone());
    assert!(state.is_finished());
    assert_eq!(state.failure_kind(), None);
    assert!(state.timed_out());
    answers.truncate(all - 1);
    let (state, _) = Orchestrator::replay(a_pdf_job(), answers);
    assert!(!state.is_finished());
    assert_eq!(state.phase(), Phase::Mailing);
}


#[test]
fn the_wait_is_bound_by_the_time_that_has_passed() {
    // Each look takes two seconds, and three are allowed: the second look
    // comes back after five, and the wait is over after one sleep, not three.
    let mut double = stand_in(None, None);
    double.look_takes = 2;
    let (state, response) = drive(a_pdf_job(), &mut double);
    assert_eq!(response.code, 200);
    assert!(state.timed_out());
    assert_eq!(state.waited(), 5);
    assert_eq!(double.looks, 2);
    let waiting: Vec<Action> = double.asked[16..21].to_vec();
    assert_eq!(
        waiting,
        vec![
            Action::Find { selector: MARKER.to_string() },
            Action::Sleep { secs: 1 },
            Action::Find { selector: MARKER.to_string() },
            Action::Log {
                message: "Dashboard data not completely loaded yet in 5 seconds for dashboard dash1; proceeding with whatever data is loaded until now".to_string()
            },
            Action::Find { selector: "main".to_string() },
        ]
    );
}

#[test]
fn one_look_that_takes_all_the_time_ends_the_wait() {
    let mut double = stand_in(None, None);
    double.look_takes = 10;
    let (state, response) = drive(a_pdf_job(), &mut double);
    assert_eq!(response.code, 200);
    assert!(state.timed_out());
    assert_eq!(state.waited(), 10);
    assert_eq!(double.looks, 1);
    assert!(matches!(
        &double.asked[17],
        Action::Log { message } if message.starts_with("Dashboard data not completely loaded yet in 10 seconds")
    ));
}

#[test]
fn a_look_that_comes_back_just_in_time_is_repeated() {
    // The look comes back after two of three seconds: a second is slept
    // through, and the wait is over then, whatever the next look reports.
    let (mut state, mut action) = Orchestrator::start(a_pdf_job());
    for place in 0..16 {
        let event = if place == 10 { Event::Clock { micros: TICK } } else { Event::Done };
        let (after, next) = state.step(event);
        state = after;
        action = next;
    }
    assert_eq!(action, Action::Find { selector: MARKER.to_string() });
    let miss = |elapsed_secs: u64| Event::Failed {
        page_url: String::new(),
        detail: "not found".to_string(),
        elapsed_secs,
    };
    let (state, action) = state.step(miss(2));
    assert_eq!(action, Action::Sleep { secs: 1 });
    assert_eq!((state.phase(), state.waited()), (Phase::Pausing, 2));
    let (state, action) = state.step(Event::Done);
    assert_eq!(action, Action::Find { selector: MARKER.to_string() });
    assert_eq!((state.phase(), state.waited()), (Phase::Polling, 3));
    let (state, action) = state.step(miss(0));
    assert!(matches!(
        &action,
        Action::Log { message } if message.starts_with("Dashboard data not completely loaded yet in 3 seconds")
    ));
    assert_eq!(state.phase(), Phase::NotingTimeout);
    assert!(state.timed_out());
    assert_eq!(state.failure_kind(), None);
}

#[test]
fn a_look_that_reports_exactly_the_time_allowed_ends_the_wait() {
    let (state, _) = Orchestrator::replay(a_pdf_job(), {
        let mut answers = smooth_answers();
        answers.truncate(16);
        answers
    });
    assert_eq!(state.phase(), Phase::Polling);
    let (state, action) = state.step(Event::Failed {
        page_url: String::new(),
        detail: "not found".to_string(),
        elapsed_secs: 3,
    });
    assert_eq!(state.phase(), Phase::NotingTimeout);
    assert_eq!(state.waited(), 3);
    assert_eq!(
        action,
        Action::Log {
            message: "Dashboard data not completely loaded yet in 3 seconds for dashboard dash1; proceeding with whatever data is loaded until now".to_string()
        }
    );
}

#[test]
fn looks_that_report_no_time_at_all_still_end_with_the_sleeps() {
    let mut answers = smooth_answers();
    answers.truncate(16);
    for _ in 0..3 {
        answers.push(Event::Failed {
            page_url: String::new(),
            detail: "not found".to_string(),
            elapsed_secs: 0,
        });
        answers.push(Event::Done);
    }
    let (state, actions) = Orchestrator::replay(a_pdf_job(), answers.clone());
    assert_eq!((state.phase(), state.waited()), (Phase::Polling, 3));
    assert!(!state.timed_out());
    assert_eq!(actions.iter().filter(|a| **a == Action::Sleep { secs: 1 }).count(), 3);
    answers.push(Event::Failed {
        page_url: String::new(),
        detail: "not found".to_string(),
        elapsed_secs: 0,
    });
    let (state, _) = Orchestrator::replay(a_pdf_job(), answers);
    assert_eq!(state.phase(), Phase::NotingTimeout);
    assert!(state.timed_out());
}
