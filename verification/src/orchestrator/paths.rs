//! The runs in which nothing fails, and the run in which the data of the
//! dashboard never loads: what the orchestrator asks for, action by action.

use crate::email::{composed, texts, EmailError, EmailPlanView};
use crate::orchestrator::laws::{lemma_run_answer, lemma_run_session};
use crate::orchestrator::model::{
    dashboard_of, data_marker, display_selector, email_selector, initial, main_selector,
    elapsed_of, next, password_selector, timeout_text, waited_after, web_url, ActionView, Event, Job, Phase, Session,
    StateView, LOGIN_SETTLE_SECS, ORG_SETTLE_SECS, POLL_INTERVAL_SECS,
};
use crate::orchestrator::run::{
    answer, lemma_run_continues, lemma_run_from_continues, lemma_run_from_one,
    lemma_run_from_prefix, lemma_run_prefix, run, run_from, teardowns,
};
use crate::report::ReportType;
use crate::router::{cached_text, plain_response, sent_text, validated, ValidationError, OK};
use crate::url::{links, login_link, organization_link, rendering_link, LinkError};
use vstd::prelude::*;

verus! {

/// The way to the dashboard: the action that is asked for as the `i`th, from
/// the launch of the browser to the first look for the dashboard's data,
/// where nothing fails. The dashboard is opened by the link `rendering`.
pub open spec fn way_in_action(job: Job, rendering: Seq<char>, i: int) -> ActionView {
    if i == 0 {
        ActionView::Launch {
            width: dashboard_of(job).attachment_dimensions.width,
            height: dashboard_of(job).attachment_dimensions.height,
        }
    } else if i == 1 {
        ActionView::NewPage { url: login_link(web_url(job)) }
    } else if i == 2 {
        ActionView::DisableLog
    } else if i == 3 {
        ActionView::Sleep { secs: LOGIN_SETTLE_SECS }
    } else if i == 4 {
        ActionView::Find { selector: email_selector() }
    } else if i == 5 {
        ActionView::Type { text: job.settings.user_email@, submit: false }
    } else if i == 6 {
        ActionView::Find { selector: password_selector() }
    } else if i == 7 {
        ActionView::Type { text: job.settings.user_password@, submit: true }
    } else if i == 8 {
        ActionView::WaitForNavigation
    } else if i == 9 {
        ActionView::Sleep { secs: LOGIN_SETTLE_SECS }
    } else if i == 10 {
        ActionView::ReadClock
    } else if i == 11 {
        ActionView::Goto { url: organization_link(web_url(job), job.org_id@) }
    } else if i == 12 {
        ActionView::WaitForNavigation
    } else if i == 13 {
        ActionView::Sleep { secs: ORG_SETTLE_SECS }
    } else if i == 14 {
        ActionView::Goto { url: rendering }
    } else if i == 15 {
        ActionView::WaitForNavigation
    } else {
        ActionView::Find { selector: data_marker() }
    }
}

/// The seventeen actions of the way to the dashboard.
pub open spec fn way_in(job: Job, rendering: Seq<char>) -> Seq<ActionView> {
    Seq::new(17, |i: int| way_in_action(job, rendering, i))
}

/// The phase that the way to the dashboard is in after `i` answers.
pub open spec fn way_in_phase(i: int) -> Phase {
    if i == 0 {
        Phase::Launching
    } else if i == 1 {
        Phase::OpeningLogin
    } else if i == 2 {
        Phase::QuietingLog
    } else if i == 3 {
        Phase::SettlingLogin
    } else if i == 4 {
        Phase::FindingEmail
    } else if i == 5 {
        Phase::TypingEmail
    } else if i == 6 {
        Phase::FindingPassword
    } else if i == 7 {
        Phase::TypingPassword
    } else if i == 8 {
        Phase::AwaitingLogin
    } else if i == 9 {
        Phase::SettlingSession
    } else if i == 10 {
        Phase::ReadingClock
    } else if i == 11 {
        Phase::SelectingOrg
    } else if i == 12 {
        Phase::AwaitingOrg
    } else if i == 13 {
        Phase::SettlingOrg
    } else if i == 14 {
        Phase::OpeningDashboard
    } else if i == 15 {
        Phase::AwaitingDashboard
    } else {
        Phase::Polling
    }
}

/// The state that the way to the dashboard is in after `i` answers: the
/// browser runs from the first on, the links are known from the eleventh on.
pub open spec fn way_in_state(
    report_type: ReportType,
    found: (Seq<char>, Seq<char>),
    i: int,
) -> StateView {
    StateView {
        phase: way_in_phase(i),
        session: if i == 0 {
            Session::NotStarted
        } else {
            Session::Live
        },
        rendering_link: if i >= 11 {
            found.0
        } else {
            Seq::<char>::empty()
        },
        email_link: if i >= 11 {
            found.1
        } else {
            Seq::<char>::empty()
        },
        ..initial(report_type)
    }
}

/// Sixteen answers of which none is a failure and the eleventh is the clock.
pub open spec fn smooth_way_in(events: Seq<Event>) -> bool {
    &&& events.len() == 16
    &&& forall|i: int| 0 <= i < 16 ==> !(#[trigger] events[i] is Failed)
    &&& events[10] is Clock
}

/// The links that a request opens and mails when the clock shows `micros`.
pub open spec fn links_at(job: Job, micros: i64) -> Result<
    (Seq<char>, Seq<char>),
    LinkError,
> {
    links(
        dashboard_of(job),
        job.org_id@,
        web_url(job),
        job.timezone@,
        validated(job.report)->Ok_0,
        micros as int,
    )
}

proof fn lemma_way_in_step(job: Job, found: (Seq<char>, Seq<char>), i: int, event: Event)
    requires
        validated(job.report) is Ok,
        0 <= i < 16,
        !(event is Failed),
        i == 10 ==> event is Clock && links_at(job, event->micros) == Ok::<
            (Seq<char>, Seq<char>),
            LinkError,
        >(found),
    ensures
        next(job, way_in_state(validated(job.report)->Ok_0, found, i), event) == (
            way_in_state(validated(job.report)->Ok_0, found, i + 1),
            way_in_action(job, found.0, i + 1),
        ),
{
}

proof fn lemma_way_in_prefix(job: Job, events: Seq<Event>, n: int)
    requires
        validated(job.report) is Ok,
        dashboard_of(job).tabs@.len() > 0,
        smooth_way_in(events),
        links_at(job, events[10]->micros) is Ok,
        0 <= n <= 16,
    ensures
        ({
            let found = links_at(job, events[10]->micros)->Ok_0;
            run(job, events.take(n)) == (
                way_in_state(validated(job.report)->Ok_0, found, n),
                way_in(job, found.0).take(n + 1),
            )
        }),
    decreases n,
{
    let found = links_at(job, events[10]->micros)->Ok_0;
    if n > 0 {
        lemma_way_in_prefix(job, events, n - 1);
        lemma_run_prefix(job, events, n - 1);
        lemma_way_in_step(job, found, n - 1, events[n - 1]);
    }
}

/// A request that is admitted, whose dashboard has a tab and a time range
/// with bounds, and for which nothing fails, logs in, selects the
/// organization and opens the dashboard by the link that names its period,
/// in exactly the actions of [`way_in`]; it then waits for the data.
pub proof fn lemma_smooth_way_in(job: Job, events: Seq<Event>)
    requires
        validated(job.report) is Ok,
        dashboard_of(job).tabs@.len() > 0,
        smooth_way_in(events),
        links_at(job, events[10]->micros) is Ok,
    ensures
        ({
            let found = links_at(job, events[10]->micros)->Ok_0;
            run(job, events) == (
                way_in_state(validated(job.report)->Ok_0, found, 16),
                way_in(job, found.0),
            )
        }),
{
    lemma_way_in_prefix(job, events, 16);
    assert(events.take(16) =~= events);
}

/// Every look for the data of the dashboard fails, for as long as the
/// configured number of seconds allows, and the looks themselves take no
/// time to speak of: one look per second and one more, each of which reports
/// no more seconds than were slept through before it.
pub open spec fn data_never_loads(job: Job, polls: Seq<Event>) -> bool {
    &&& polls.len() == 2 * job.settings.data_timeout_secs + 1
    &&& forall|i: int|
        0 <= i < polls.len() && i % 2 == 0 ==> #[trigger] polls[i] is Failed && elapsed_of(
            polls[i],
        ) <= i / 2
}

/// What is asked for while the data does not load: a second of sleep and
/// another look, in turns, and at the end a line in the log.
pub open spec fn waiting_action(job: Job, i: int) -> ActionView {
    if i == 2 * job.settings.data_timeout_secs {
        ActionView::Log {
            message: timeout_text(
                dashboard_of(job).dashboard@,
                job.settings.data_timeout_secs as int,
            ),
        }
    } else if i % 2 == 0 {
        ActionView::Sleep { secs: POLL_INTERVAL_SECS }
    } else {
        ActionView::Find { selector: data_marker() }
    }
}

/// The actions of a wait that ends before the data is there.
pub open spec fn waiting(job: Job) -> Seq<ActionView> {
    Seq::new(
        (2 * job.settings.data_timeout_secs + 1) as nat,
        |i: int| waiting_action(job, i),
    )
}

proof fn lemma_waiting_prefix(job: Job, s: StateView, polls: Seq<Event>, n: int)
    requires
        s.phase == Phase::Polling,
        s.waited == 0,
        data_never_loads(job, polls),
        0 <= n <= 2 * job.settings.data_timeout_secs,
    ensures
        run_from(job, s, polls.take(n)) == (
            StateView {
                phase: if n % 2 == 0 {
                    Phase::Polling
                } else {
                    Phase::Pausing
                },
                waited: (n / 2) as u64,
                ..s
            },
            waiting(job).take(n),
        ),
    decreases n,
{
    if n > 0 {
        lemma_waiting_prefix(job, s, polls, n - 1);
        lemma_run_from_prefix(job, s, polls, n - 1);
        if (n - 1) % 2 == 0 {
            assert(polls[n - 1] is Failed);
        }
    }
}

/// Where the data of a dashboard never loads and the looks take no time,
/// the wait ends after the configured number of seconds with a line in the
/// log, and not with a failure: the rendering goes on with what is there.
pub proof fn lemma_wait_ends_softly(job: Job, s: StateView, polls: Seq<Event>)
    requires
        s.phase == Phase::Polling,
        s.waited == 0,
        data_never_loads(job, polls),
    ensures
        run_from(job, s, polls) == (
            StateView {
                phase: Phase::NotingTimeout,
                waited: job.settings.data_timeout_secs as u64,
                timed_out: true,
                ..s
            },
            waiting(job),
        ),
{
    let n = 2 * job.settings.data_timeout_secs;
    lemma_waiting_prefix(job, s, polls, n);
    lemma_run_from_prefix(job, s, polls, n);
}

/// What a failed look for the data does: nothing to the request itself,
/// which it never fails. The seconds waited are those that the look reports,
/// unless more were slept through already. If they reach the configured
/// number, the log is told so, in the words "Dashboard data not completely
/// loaded yet in" and the seconds, and the rendering goes on; if not, a
/// second is slept through and the look is repeated.
pub proof fn lemma_wait_is_bound_by_time(job: Job, s: StateView, event: Event)
    requires
        s.phase == Phase::Polling,
        event is Failed,
    ensures
        ({
            let (after, action) = next(job, s, event);
            let waited = waited_after(s, event);
            let timeout = job.settings.data_timeout_secs;
            &&& waited >= elapsed_of(event) && waited >= s.waited
            &&& after == StateView {
                phase: if waited >= timeout {
                    Phase::NotingTimeout
                } else {
                    Phase::Pausing
                },
                timed_out: s.timed_out || waited >= timeout,
                waited,
                ..s
            }
            &&& action == if waited >= timeout {
                ActionView::Log { message: timeout_text(dashboard_of(job).dashboard@, waited as int) }
            } else {
                ActionView::Sleep { secs: POLL_INTERVAL_SECS }
            }
        }),
{
}

/// Whether a wait has ended before the data was there, without a failure:
/// the log is told how long it lasted, which is no less than the configured
/// number of seconds.
pub open spec fn ended_softly(job: Job, s: StateView, end: (StateView, Seq<ActionView>)) -> bool {
    let (after, trace) = end;
    &&& after == StateView {
        phase: Phase::NotingTimeout,
        timed_out: true,
        waited: after.waited,
        ..s
    }
    &&& after.waited >= job.settings.data_timeout_secs
    &&& trace.len() > 0
    &&& trace.last() == ActionView::Log {
        message: timeout_text(dashboard_of(job).dashboard@, after.waited as int),
    }
}

/// The seconds that a wait may still last.
pub open spec fn seconds_left(job: Job, s: StateView) -> int {
    if s.waited < job.settings.data_timeout_secs {
        job.settings.data_timeout_secs - s.waited
    } else {
        0
    }
}

/// Where no look for the data succeeds, the wait ends before the data is
/// there, and without a failure, whatever the looks report of the time: at
/// the first look that reports the configured number of seconds or more,
/// and at the latest once that many seconds were slept through.
pub proof fn lemma_wait_ends_whatever_the_time(job: Job, s: StateView, polls: Seq<Event>)
    requires
        s.phase == Phase::Polling,
        polls.len() >= 2 * seconds_left(job, s) + 1,
        forall|i: int| 0 <= i < polls.len() && i % 2 == 0 ==> #[trigger] polls[i] is Failed,
    ensures
        exists|k: int|
            0 <= k <= 2 * seconds_left(job, s) && k % 2 == 0 && ended_softly(
                job,
                s,
                #[trigger] run_from(job, s, polls.take(k + 1)),
            ),
    decreases seconds_left(job, s),
{
    assert(polls[0] is Failed);
    lemma_wait_is_bound_by_time(job, s, polls[0]);
    lemma_run_from_one(job, s, polls[0]);
    assert(polls.take(1) =~= seq![polls[0]]);
    let waited = waited_after(s, polls[0]);
    if waited >= job.settings.data_timeout_secs {
        assert(ended_softly(job, s, run_from(job, s, polls.take(0int + 1))));
    } else {
        let paused = next(job, s, polls[0]).0;
        let again = next(job, paused, polls[1]).0;
        let rest = polls.skip(2);
        assert forall|i: int| 0 <= i < rest.len() && i % 2 == 0 implies #[trigger] rest[i]
            is Failed by {
            assert(polls[i + 2] is Failed);
        }
        lemma_wait_ends_whatever_the_time(job, again, rest);
        let k = choose|k: int|
            0 <= k <= 2 * seconds_left(job, again) && k % 2 == 0 && ended_softly(
                job,
                again,
                #[trigger] run_from(job, again, rest.take(k + 1)),
            );
        let head = seq![polls[0], polls[1]];
        lemma_run_from_one(job, paused, polls[1]);
        lemma_run_from_continues(job, s, seq![polls[0]], seq![polls[1]]);
        assert(seq![polls[0]] + seq![polls[1]] =~= head);
        lemma_run_from_continues(job, s, head, rest.take(k + 1));
        assert(head + rest.take(k + 1) =~= polls.take(k + 2 + 1));
        assert(ended_softly(job, s, run_from(job, s, polls.take(k + 2 + 1))));
    }
}

/// The mail of a rendering that produced `data`.
pub open spec fn mail_of(job: Job, s: StateView, data: Seq<u8>) -> Result<
    EmailPlanView,
    EmailError,
> {
    composed(
        data,
        s.report_type,
        dashboard_of(job).email_attachment_type,
        texts(job.report.email_details.recipients@),
        job.report.email_details.title@,
        job.report.email_details.message@,
        s.email_link,
        job.settings.from_email@,
        job.settings.reply_to@,
    )
}

/// Five answers that let a rendering through: the two containers are there,
/// the capture gives bytes, and the mail goes out.
pub open spec fn smooth_way_out(events: Seq<Event>) -> bool {
    &&& events.len() == 5
    &&& !(events[0] is Failed)
    &&& !(events[1] is Failed)
    &&& events[2] is Bytes
    &&& !(events[4] is Failed)
}

/// From the dashboard to the caller, for a report that is mailed: once both
/// containers are found, the page is captured in the format of the report,
/// the browser is given back, the mail is sent with the capture in it, and
/// the caller is told that it went out.
pub proof fn lemma_smooth_way_out(job: Job, s: StateView, events: Seq<Event>)
    requires
        s.phase == Phase::CheckingMain,
        s.failure is None,
        s.report_type != ReportType::Cache,
        validated(job.report) == Ok::<ReportType, ValidationError>(s.report_type),
        smooth_way_out(events),
    ensures
        mail_of(job, s, events[2]->Bytes_0@) is Ok,
        run_from(job, s, events) == (
            StateView {
                phase: Phase::Finished,
                session: Session::Released,
                artifact: Seq::<u8>::empty(),
                ..s
            },
            seq![
                ActionView::Find { selector: display_selector() },
                if s.report_type == ReportType::PDF {
                    ActionView::PrintPdf { landscape: true }
                } else {
                    ActionView::Screenshot { save_to_disk: false }
                },
                ActionView::Teardown,
                ActionView::SendEmail(mail_of(job, s, events[2]->Bytes_0@)->Ok_0),
                ActionView::Respond(plain_response(OK, sent_text())),
            ],
        ),
{
    lemma_run_from_prefix(job, s, events, 0);
    lemma_run_from_prefix(job, s, events, 1);
    lemma_run_from_prefix(job, s, events, 2);
    lemma_run_from_prefix(job, s, events, 3);
    lemma_run_from_prefix(job, s, events, 4);
    assert(run_from(job, s, events.take(3)).0.phase == Phase::Releasing);
}

/// From the dashboard to the caller, for a rendering made for the cache:
/// once both containers are found, nothing is captured; the browser is given
/// back and the caller is told that the cache is warm.
pub proof fn lemma_smooth_way_out_for_cache(job: Job, s: StateView, events: Seq<Event>)
    requires
        s.phase == Phase::CheckingMain,
        s.failure is None,
        s.report_type == ReportType::Cache,
        events.len() == 3,
        !(events[0] is Failed),
        !(events[1] is Failed),
    ensures
        run_from(job, s, events) == (
            StateView { phase: Phase::Finished, session: Session::Released, ..s },
            seq![
                ActionView::Find { selector: display_selector() },
                ActionView::Teardown,
                ActionView::Respond(plain_response(OK, cached_text(job.report_name@))),
            ],
        ),
{
    lemma_run_from_prefix(job, s, events, 0);
    lemma_run_from_prefix(job, s, events, 1);
    lemma_run_from_prefix(job, s, events, 2);
}

/// If the data of the dashboard never shows within the configured time, the
/// request still reaches the capture and ends well: the log notes the
/// timeout, the page is captured as it is, the browser is given back once,
/// the mail goes out with the capture, and the caller is told so.
pub proof fn lemma_timeout_still_delivers(
    job: Job,
    way: Seq<Event>,
    polls: Seq<Event>,
    noted: Event,
    out: Seq<Event>,
)
    requires
        validated(job.report) is Ok,
        validated(job.report)->Ok_0 != ReportType::Cache,
        dashboard_of(job).tabs@.len() > 0,
        smooth_way_in(way),
        links_at(job, way[10]->micros) is Ok,
        data_never_loads(job, polls),
        smooth_way_out(out),
    ensures
        ({
            let (s, trace) = run(job, way + polls + seq![noted] + out);
            let found = links_at(job, way[10]->micros)->Ok_0;
            let timeout = job.settings.data_timeout_secs as int;
            &&& s.phase == Phase::Finished
            &&& s.failure is None
            &&& s.timed_out
            &&& trace.len() == 24 + 2 * timeout
            &&& trace.take(17) == way_in(job, found.0)
            &&& trace[17 + 2 * timeout] == ActionView::Log {
                message: timeout_text(dashboard_of(job).dashboard@, timeout),
            }
            &&& trace[18 + 2 * timeout] == ActionView::Find { selector: main_selector() }
            &&& trace[22 + 2 * timeout] is SendEmail
            &&& trace[22 + 2 * timeout]->SendEmail_0.attachment.data == out[2]->Bytes_0@
            &&& trace[23 + 2 * timeout] == ActionView::Respond(plain_response(OK, sent_text()))
            &&& answer(trace) == Some(plain_response(OK, sent_text()))
            &&& teardowns(trace) == 1
        }),
{
    let report_type = validated(job.report)->Ok_0;
    let found = links_at(job, way[10]->micros)->Ok_0;
    let events = way + polls + seq![noted] + out;
    lemma_smooth_way_in(job, way);
    let s1 = way_in_state(report_type, found, 16);
    lemma_wait_ends_softly(job, s1, polls);
    let s2 = StateView {
        phase: Phase::NotingTimeout,
        waited: job.settings.data_timeout_secs as u64,
        timed_out: true,
        ..s1
    };
    lemma_run_from_one(job, s2, noted);
    let s3 = StateView { phase: Phase::CheckingMain, ..s2 };
    lemma_smooth_way_out(job, s3, out);
    lemma_run_from_continues(job, s2, seq![noted], out);
    lemma_run_from_continues(job, s1, polls, seq![noted] + out);
    lemma_run_continues(job, way, polls + (seq![noted] + out));
    assert(events =~= way + (polls + (seq![noted] + out)));
    lemma_run_answer(job, events);
    lemma_run_session(job, events);
}

/// A report without recipients, for which nothing fails, is rendered all the
/// same, in the mode that warms the cache: the browser is launched, the
/// dashboard is opened and watched until its data is there; then nothing is
/// captured and nothing mailed, the browser is given back once, and the
/// caller is told that the cache is warm.
pub proof fn lemma_cache_run(job: Job, way: Seq<Event>, loaded: Event, out: Seq<Event>)
    requires
        job.report.dashboards@.len() > 0,
        job.report.email_details.recipients@.len() == 0,
        dashboard_of(job).tabs@.len() > 0,
        smooth_way_in(way),
        links_at(job, way[10]->micros) is Ok,
        !(loaded is Failed),
        out.len() == 3,
        !(out[0] is Failed),
        !(out[1] is Failed),
    ensures
        ({
            let (s, trace) = run(job, way + seq![loaded] + out);
            &&& s.phase == Phase::Finished
            &&& s.failure is None
            &&& s.report_type == ReportType::Cache
            &&& trace == way_in(
                job,
                rendering_link(
                    dashboard_of(job),
                    job.org_id@,
                    web_url(job),
                    job.timezone@,
                    ReportType::Cache,
                ),
            ) + seq![
                ActionView::Find { selector: main_selector() },
                ActionView::Find { selector: display_selector() },
                ActionView::Teardown,
                ActionView::Respond(plain_response(OK, cached_text(job.report_name@))),
            ]
            &&& answer(trace) == Some(plain_response(OK, cached_text(job.report_name@)))
            &&& teardowns(trace) == 1
        }),
{
    let found = links_at(job, way[10]->micros)->Ok_0;
    let events = way + seq![loaded] + out;
    lemma_smooth_way_in(job, way);
    let s1 = way_in_state(ReportType::Cache, found, 16);
    lemma_run_from_one(job, s1, loaded);
    let s2 = StateView { phase: Phase::CheckingMain, ..s1 };
    lemma_smooth_way_out_for_cache(job, s2, out);
    lemma_run_from_continues(job, s1, seq![loaded], out);
    lemma_run_continues(job, way, seq![loaded] + out);
    assert(events =~= way + (seq![loaded] + out));
    lemma_run_answer(job, events);
    lemma_run_session(job, events);
}

} // verus!
