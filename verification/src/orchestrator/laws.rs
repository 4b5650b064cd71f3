//! What holds of every run of the orchestrator, whatever the answers.

use crate::orchestrator::model::{
    begin, next, stage, ActionView, Event, Job, Phase, Session, Stage, StateView,
};
use crate::orchestrator::run::{
    answer, halts, launched, lemma_answer_push, lemma_answered_at_once, lemma_run_step,
    lemma_teardowns_push, mails, run, teardowns,
};
use crate::report::{EmailAttachmentType, ReportType};
use crate::router::{
    cached_text, plain_response, rejection, rejection_text, sent_text, validated, ResponseView,
    ValidationError, BAD_REQUEST, CONFLICT, OK,
};
use vstd::prelude::*;

verus! {

/// The browser runs in exactly the phases that use it.
pub open spec fn session_matches_phase(s: StateView) -> bool {
    match s.phase {
        Phase::Launching => s.session == Session::NotStarted,
        Phase::Releasing | Phase::Mailing => s.session == Session::Released,
        Phase::Finished => s.session != Session::Live,
        _ => s.session == Session::Live,
    }
}

/// What one step does to the browser: it is launched by the first answer
/// or never, given back by a teardown and by nothing else, and gone before
/// the caller is told.
pub proof fn lemma_step_session(job: Job, s: StateView, event: Event)
    requires
        session_matches_phase(s),
    ensures
        ({
            let (after, action) = next(job, s, event);
            &&& session_matches_phase(after)
            &&& !(action is Launch)
            &&& action is Teardown <==> s.session == Session::Live && after.session
                == Session::Released
            &&& after.session == Session::NotStarted <==> s.session == Session::NotStarted && (
            s.phase != Phase::Launching || event is Failed)
            &&& s.session == Session::Released ==> after.session == Session::Released
        }),
{
}

/// In every run the browser is where the phase says, the teardowns so far
/// are one if it was given back and none if not, and it was launched if and
/// only if the first action asked for it and was not answered by a failure.
pub proof fn lemma_run_session(job: Job, events: Seq<Event>)
    ensures
        ({
            let (s, trace) = run(job, events);
            &&& trace.len() == events.len() + 1
            &&& session_matches_phase(s)
            &&& teardowns(trace) == if s.session == Session::Released {
                1nat
            } else {
                0nat
            }
            &&& s.session != Session::NotStarted <==> launched(trace, events)
            &&& forall|i: int| 1 <= i < trace.len() ==> !(#[trigger] trace[i] is Launch)
        }),
    decreases events.len(),
{
    let (s0, first) = begin(job);
    if events.len() == 0 {
        let trace = seq![first];
        assert(teardowns(trace.drop_last()) == 0);
    } else {
        let earlier = events.drop_last();
        let event = events.last();
        lemma_run_session(job, earlier);
        lemma_run_step(job, earlier, event);
        let (before, trace) = run(job, earlier);
        let (after, action) = next(job, before, event);
        lemma_step_session(job, before, event);
        lemma_teardowns_push(trace, action);
        let longer = trace.push(action);
        assert forall|i: int| 1 <= i < longer.len() implies !(#[trigger] longer[i] is Launch) by {}
    }
}

/// The browser of a request is given back exactly once if one was launched,
/// and never if none was: whatever the answers, and in whichever phase the
/// request failed, once the caller is told the browser is gone.
pub proof fn lemma_teardown_exactly_once(job: Job, events: Seq<Event>)
    ensures
        ({
            let (s, trace) = run(job, events);
            &&& teardowns(trace) <= 1
            &&& s.phase == Phase::Finished ==> teardowns(trace) == if launched(trace, events) {
                1nat
            } else {
                0nat
            }
            &&& s.phase == Phase::Finished ==> s.session != Session::Live
        }),
{
    lemma_run_session(job, events);
}

/// The place of a stage on the way of a rendering.
pub open spec fn stage_rank(stage: Stage) -> int {
    match stage {
        Stage::Init => 0,
        Stage::LoggedIn => 1,
        Stage::OrgSelected => 2,
        Stage::DashboardLoaded => 3,
        Stage::DataReady => 4,
        Stage::Captured => 5,
        Stage::Closed => 6,
        Stage::Failed => 7,
    }
}

/// A rendering only moves forward: a step leaves it in its stage, takes it
/// to a later one, or fails it; and what has failed stays failed.
pub proof fn lemma_stage_only_advances(job: Job, s: StateView, event: Event)
    requires
        mail_matches_phase(s),
    ensures
        stage_rank(stage(s)) <= stage_rank(stage(next(job, s, event).0)),
{
}

/// What the caller is told at the end of a request that did not fail.
pub open spec fn success_response(job: Job, s: StateView) -> ResponseView {
    if s.report_type == ReportType::Cache {
        plain_response(OK, cached_text(job.report_name@))
    } else {
        plain_response(OK, sent_text())
    }
}

/// What the caller is told at the end of a request in the state `s`.
pub open spec fn last_word(job: Job, s: StateView, code: u16) -> ResponseView {
    match s.failure {
        Some(failure) => plain_response(code, failure.message),
        None => success_response(job, s),
    }
}

/// Whether a request in the state `s` may end well: a mail is under way only
/// for a rendering that did not fail and was not made for the cache.
pub open spec fn mail_matches_phase(s: StateView) -> bool {
    s.phase == Phase::Mailing ==> s.failure is None && s.report_type != ReportType::Cache
}

/// What one step tells the caller: nothing, until it is the last; then the
/// failure's own message under a code that is not a success, or the word of
/// success that goes with the format.
pub proof fn lemma_step_answer(job: Job, s: StateView, event: Event)
    requires
        mail_matches_phase(s),
    ensures
        ({
            let (after, action) = next(job, s, event);
            &&& mail_matches_phase(after)
            &&& after.report_type == s.report_type
            &&& s.phase == Phase::Finished ==> after == s && action is Halt
            &&& action is Respond <==> s.phase != Phase::Finished && after.phase
                == Phase::Finished
            &&& action matches ActionView::Respond(response) ==> {
                &&& response == last_word(job, after, response.code)
                &&& after.failure is Some ==> response.code != OK
            }
            &&& action is SendEmail ==> after.phase == Phase::Mailing
            &&& action is SendEmail || action is PrintPdf ==> s.report_type != ReportType::Cache
        }),
{
}

/// In every run the caller is told exactly when the request is finished, and
/// is told the failure's own message under a code that is not a success, or
/// the word of success that goes with the format.
pub proof fn lemma_run_answer(job: Job, events: Seq<Event>)
    ensures
        ({
            let (s, trace) = run(job, events);
            &&& mail_matches_phase(s)
            &&& s.phase == Phase::Finished <==> answer(trace) is Some
            &&& s.phase == Phase::Finished ==> answer(trace) == Some(
                last_word(job, s, answer(trace)->Some_0.code),
            )
            &&& s.phase == Phase::Finished && s.failure is Some ==> answer(trace)->Some_0.code
                != OK
        }),
    decreases events.len(),
{
    let (s0, first) = begin(job);
    if events.len() == 0 {
        let trace = seq![first];
        assert(answer(trace.drop_last()) is None);
    } else {
        let earlier = events.drop_last();
        let event = events.last();
        lemma_run_answer(job, earlier);
        lemma_run_step(job, earlier, event);
        let (before, trace) = run(job, earlier);
        let (after, action) = next(job, before, event);
        lemma_step_answer(job, before, event);
        lemma_answer_push(trace, action);
    }
}

/// A request that is turned away is answered at once, and nothing else is
/// ever asked for: no browser is launched for it.
pub proof fn lemma_rejected_request(job: Job, events: Seq<Event>)
    requires
        validated(job.report) is Err,
    ensures
        run(job, events).0.phase == Phase::Finished,
        run(job, events).1 == seq![ActionView::Respond(rejection(validated(job.report)->Err_0))]
            + halts(events.len()),
    decreases events.len(),
{
    if events.len() > 0 {
        let earlier = events.drop_last();
        lemma_rejected_request(job, earlier);
        lemma_run_step(job, earlier, events.last());
    }
}

/// A request without a dashboard is a bad request, and no browser is ever
/// launched for it.
pub proof fn lemma_no_dashboard_is_bad_request(job: Job, events: Seq<Event>)
    requires
        job.report.dashboards@.len() == 0,
    ensures
        answer(run(job, events).1) == Some(
            plain_response(BAD_REQUEST, rejection_text(ValidationError::NoDashboards)),
        ),
        forall|i: int|
            0 <= i < run(job, events).1.len() ==> !(#[trigger] run(job, events).1[i] is Launch),
{
    lemma_rejected_request(job, events);
    lemma_answered_at_once(rejection(validated(job.report)->Err_0), halts(events.len()));
}

/// A request for a PDF in the body of the mail is a conflict, and no browser
/// is ever launched for it.
pub proof fn lemma_inline_pdf_is_conflict(job: Job, events: Seq<Event>)
    requires
        job.report.dashboards@.len() > 0,
        job.report.email_details.recipients@.len() > 0,
        job.report.dashboards@[0].report_type == ReportType::PDF,
        job.report.dashboards@[0].email_attachment_type == EmailAttachmentType::Inline,
    ensures
        answer(run(job, events).1) == Some(
            plain_response(
                CONFLICT,
                rejection_text(ValidationError::IncompatibleDisposition),
            ),
        ),
        forall|i: int|
            0 <= i < run(job, events).1.len() ==> !(#[trigger] run(job, events).1[i] is Launch),
{
    lemma_rejected_request(job, events);
    lemma_answered_at_once(rejection(validated(job.report)->Err_0), halts(events.len()));
}

/// The format of a rendering is what the request was admitted with, in every
/// state but the last; for the cache nothing is ever printed or mailed.
proof fn lemma_cache_state(job: Job, events: Seq<Event>)
    requires
        validated(job.report) == Ok::<ReportType, ValidationError>(ReportType::Cache),
    ensures
        run(job, events).0.report_type == ReportType::Cache,
        forall|i: int|
            0 <= i < run(job, events).1.len() ==> !(#[trigger] run(job, events).1[i] is SendEmail),
        forall|i: int|
            0 <= i < run(job, events).1.len() ==> !(#[trigger] run(job, events).1[i] is PrintPdf),
    decreases events.len(),
{
    if events.len() > 0 {
        let earlier = events.drop_last();
        lemma_cache_state(job, earlier);
        lemma_run_step(job, earlier, events.last());
        let (before, trace) = run(job, earlier);
        let (after, action) = next(job, before, events.last());
        let longer = trace.push(action);
        assert forall|i: int| 0 <= i < longer.len() implies !(#[trigger] longer[i] is SendEmail) by {}
        assert forall|i: int| 0 <= i < longer.len() implies !(#[trigger] longer[i] is PrintPdf) by {}
    }
}

/// A report without recipients is rendered for the cache: no mail is ever
/// composed for it, and where it does not fail, the caller is told that the
/// cache is warm.
pub proof fn lemma_no_recipients_is_cache_only(job: Job, events: Seq<Event>)
    requires
        job.report.dashboards@.len() > 0,
        job.report.email_details.recipients@.len() == 0,
    ensures
        validated(job.report) == Ok::<ReportType, ValidationError>(ReportType::Cache),
        forall|i: int|
            0 <= i < run(job, events).1.len() ==> !(#[trigger] run(job, events).1[i] is SendEmail),
        forall|i: int|
            0 <= i < run(job, events).1.len() ==> !(#[trigger] run(job, events).1[i] is PrintPdf),
        run(job, events).0.phase == Phase::Finished && run(job, events).0.failure is None
            ==> answer(run(job, events).1) == Some(
            plain_response(OK, cached_text(job.report_name@)),
        ),
{
    lemma_run_answer(job, events);
    lemma_cache_state(job, events);
}

/// A mail is handed to the transport at most once in a run: a delivery that
/// fails is not tried again.
pub proof fn lemma_at_most_one_mail(job: Job, events: Seq<Event>)
    ensures
        ({
            let (s, trace) = run(job, events);
            &&& mails(trace) <= 1
            &&& s.phase != Phase::Mailing && s.phase != Phase::Finished ==> mails(trace) == 0
        }),
    decreases events.len(),
{
    let (s0, first) = begin(job);
    if events.len() == 0 {
        let trace = seq![first];
        assert(mails(trace.drop_last()) == 0);
    } else {
        let earlier = events.drop_last();
        let event = events.last();
        lemma_at_most_one_mail(job, earlier);
        lemma_run_step(job, earlier, event);
        let (before, trace) = run(job, earlier);
        let (after, action) = next(job, before, event);
        assert(trace.push(action).drop_last() =~= trace);
    }
}

/// A request that has failed does nothing more than take its screenshot,
/// give its browser back and tell its caller.
pub open spec fn failure_matches_phase(s: StateView) -> bool {
    s.failure is Some ==> s.phase == Phase::Diagnosing || s.phase == Phase::Releasing || s.phase
        == Phase::Finished
}

/// A step does not change the failure of a request that has failed.
pub proof fn lemma_step_keeps_failure(job: Job, s: StateView, event: Event)
    requires
        failure_matches_phase(s),
    ensures
        failure_matches_phase(next(job, s, event).0),
        s.failure is Some ==> next(job, s, event).0.failure == s.failure,
{
}

proof fn lemma_failure_stays(job: Job, first: Seq<Event>, second: Seq<Event>)
    ensures
        failure_matches_phase(run(job, first + second).0),
        run(job, first).0.failure is Some ==> run(job, first + second).0.failure == run(
            job,
            first,
        ).0.failure,
    decreases first.len() + second.len(),
{
    if second.len() == 0 {
        if first.len() > 0 {
            let earlier = first.drop_last();
            lemma_failure_stays(job, earlier, Seq::<Event>::empty());
            lemma_run_step(job, earlier, first.last());
            lemma_step_keeps_failure(job, run(job, earlier).0, first.last());
        }
    } else {
        let earlier = first + second.drop_last();
        lemma_failure_stays(job, first, second.drop_last());
        assert(earlier.push(second.last()) =~= first + second);
        lemma_run_step(job, earlier, second.last());
        lemma_step_keeps_failure(job, run(job, earlier).0, second.last());
    }
}

/// The first failure of a request is the one that counts: whatever happens
/// later, be it to the diagnostic screenshot or to the teardown, it stays
/// the failure of the request, and its message is what the caller is told.
pub proof fn lemma_first_failure_is_kept(job: Job, first: Seq<Event>, second: Seq<Event>)
    requires
        run(job, first).0.failure is Some,
    ensures
        run(job, first + second).0.failure == run(job, first).0.failure,
        run(job, first + second).0.phase == Phase::Finished ==> answer(
            run(job, first + second).1,
        ) is Some && answer(run(job, first + second).1)->Some_0.message == run(
            job,
            first,
        ).0.failure->Some_0.message,
{
    lemma_failure_stays(job, first, second);
    lemma_run_answer(job, first + second);
}

/// The looks for the data of a dashboard stay within the configured time:
/// a second is slept through only while there are seconds left.
pub open spec fn wait_in_bounds(job: Job, s: StateView) -> bool {
    s.phase == Phase::Pausing ==> s.waited < job.settings.data_timeout_secs
}

/// At most how many more answers a request takes until its caller is told.
pub open spec fn answers_left(job: Job, s: StateView) -> int {
    let timeout = job.settings.data_timeout_secs as int;
    let seconds_left = if s.waited < timeout {
        timeout - s.waited
    } else {
        0
    };
    match s.phase {
        Phase::Finished => 0,
        Phase::Mailing => 1,
        Phase::Releasing => 2,
        Phase::Diagnosing => 3,
        Phase::Capturing => 3,
        Phase::CheckingDisplay => 4,
        Phase::CheckingMain => 5,
        Phase::NotingTimeout => 6,
        Phase::Pausing => 6 + 2 * seconds_left,
        Phase::Polling => 7 + 2 * seconds_left,
        Phase::AwaitingDashboard => 8 + 2 * timeout,
        Phase::OpeningDashboard => 9 + 2 * timeout,
        Phase::SettlingOrg => 10 + 2 * timeout,
        Phase::AwaitingOrg => 11 + 2 * timeout,
        Phase::SelectingOrg => 12 + 2 * timeout,
        Phase::ReadingClock => 13 + 2 * timeout,
        Phase::SettlingSession => 14 + 2 * timeout,
        Phase::AwaitingLogin => 15 + 2 * timeout,
        Phase::TypingPassword => 16 + 2 * timeout,
        Phase::FindingPassword => 17 + 2 * timeout,
        Phase::TypingEmail => 18 + 2 * timeout,
        Phase::FindingEmail => 19 + 2 * timeout,
        Phase::SettlingLogin => 20 + 2 * timeout,
        Phase::QuietingLog => 21 + 2 * timeout,
        Phase::OpeningLogin => 22 + 2 * timeout,
        Phase::Launching => 23 + 2 * timeout,
    }
}

/// Every answer brings a request nearer to its end.
pub proof fn lemma_step_progress(job: Job, s: StateView, event: Event)
    requires
        wait_in_bounds(job, s),
        s.phase != Phase::Finished,
    ensures
        wait_in_bounds(job, next(job, s, event).0),
        answers_left(job, next(job, s, event).0) < answers_left(job, s),
{
}

/// Every request ends: whatever the answers, after twenty-three of them and
/// two for each second of the configured wait, the caller has been told.
pub proof fn lemma_every_request_ends(job: Job, events: Seq<Event>)
    ensures
        wait_in_bounds(job, run(job, events).0),
        answers_left(job, run(job, events).0) <= 23 + 2 * job.settings.data_timeout_secs,
        answers_left(job, run(job, events).0) + events.len() <= 23 + 2
            * job.settings.data_timeout_secs || run(job, events).0.phase == Phase::Finished,
        events.len() >= 23 + 2 * job.settings.data_timeout_secs ==> run(job, events).0.phase
            == Phase::Finished,
    decreases events.len(),
{
    if events.len() > 0 {
        let earlier = events.drop_last();
        let event = events.last();
        lemma_every_request_ends(job, earlier);
        lemma_run_step(job, earlier, event);
        let before = run(job, earlier).0;
        if before.phase != Phase::Finished {
            lemma_step_progress(job, before, event);
        }
    }
}

} // verus!
