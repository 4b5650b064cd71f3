//! Runs of the orchestrator: where a request stands after a list of answers,
//! and what was asked for on the way.

use crate::orchestrator::model::{begin, next, ActionView, Event, Job, StateView};
use crate::router::ResponseView;
use vstd::prelude::*;

verus! {

/// Where a request stands after the answers `events`, taken up from the
/// state `s`, and the actions that were asked for on the way.
pub open spec fn run_from(job: Job, s: StateView, events: Seq<Event>) -> (
    StateView,
    Seq<ActionView>,
)
    decreases events.len(),
{
    if events.len() == 0 {
        (s, Seq::<ActionView>::empty())
    } else {
        let (before, trace) = run_from(job, s, events.drop_last());
        let (after, action) = next(job, before, events.last());
        (after, trace.push(action))
    }
}

/// Where a request stands after the answers `events`, and every action that
/// was asked for, the first included.
pub open spec fn run(job: Job, events: Seq<Event>) -> (StateView, Seq<ActionView>) {
    let (s, first) = begin(job);
    let (after, trace) = run_from(job, s, events);
    (after, seq![first] + trace)
}

/// How often a run gave its browser back.
pub open spec fn teardowns(trace: Seq<ActionView>) -> nat
    decreases trace.len(),
{
    if trace.len() == 0 {
        0
    } else {
        teardowns(trace.drop_last()) + if trace.last() is Teardown {
            1nat
        } else {
            0nat
        }
    }
}

/// How often a run handed a mail to the transport.
pub open spec fn mails(trace: Seq<ActionView>) -> nat
    decreases trace.len(),
{
    if trace.len() == 0 {
        0
    } else {
        mails(trace.drop_last()) + if trace.last() is SendEmail {
            1nat
        } else {
            0nat
        }
    }
}

/// What the caller was told in a run, if anything yet.
pub open spec fn answer(trace: Seq<ActionView>) -> Option<ResponseView>
    decreases trace.len(),
{
    if trace.len() == 0 {
        None
    } else {
        match answer(trace.drop_last()) {
            Some(response) => Some(response),
            None => match trace.last() {
                ActionView::Respond(response) => Some(response),
                _ => None,
            },
        }
    }
}

/// Whether a browser was launched in a run: the first action asked for one,
/// and the answer was not a failure.
pub open spec fn launched(trace: Seq<ActionView>, events: Seq<Event>) -> bool {
    trace.len() > 0 && trace[0] is Launch && events.len() > 0 && !(events[0] is Failed)
}

/// `n` times nothing.
pub open spec fn halts(n: nat) -> Seq<ActionView> {
    Seq::new(n, |i: int| ActionView::Halt)
}

/// A run that is taken up where another left off goes on as if it had never
/// stopped.
pub proof fn lemma_run_from_continues(
    job: Job,
    s: StateView,
    first: Seq<Event>,
    second: Seq<Event>,
)
    ensures
        run_from(job, s, first + second) == ({
            let (middle, head) = run_from(job, s, first);
            let (end, tail) = run_from(job, middle, second);
            (end, head + tail)
        }),
    decreases second.len(),
{
    let (middle, head) = run_from(job, s, first);
    if second.len() > 0 {
        lemma_run_from_continues(job, s, first, second.drop_last());
        assert((first + second).drop_last() =~= first + second.drop_last());
    }
}

/// One more answer takes a run one step further.
pub proof fn lemma_run_step(job: Job, events: Seq<Event>, event: Event)
    ensures
        run(job, events.push(event)) == ({
            let (before, trace) = run(job, events);
            let (after, action) = next(job, before, event);
            (after, trace.push(action))
        }),
{
    let (s, first) = begin(job);
    assert(events.push(event).drop_last() =~= events);
}

/// A run in two parts is the first part, and then the second taken up where
/// the first left off.
pub proof fn lemma_run_continues(job: Job, first: Seq<Event>, second: Seq<Event>)
    ensures
        run(job, first + second) == ({
            let (middle, head) = run(job, first);
            let (end, tail) = run_from(job, middle, second);
            (end, head + tail)
        }),
{
    let (s, initial) = begin(job);
    lemma_run_from_continues(job, s, first, second);
}

/// A run's state after one more answer, counted from the front.
pub proof fn lemma_run_prefix(job: Job, events: Seq<Event>, i: int)
    requires
        0 <= i < events.len(),
    ensures
        run(job, events.take(i + 1)) == ({
            let (before, trace) = run(job, events.take(i));
            let (after, action) = next(job, before, events[i]);
            (after, trace.push(action))
        }),
{
    assert(events.take(i).push(events[i]) =~= events.take(i + 1));
    lemma_run_step(job, events.take(i), events[i]);
}

/// The same, for a run that is taken up in the middle.
pub proof fn lemma_run_from_prefix(job: Job, s: StateView, events: Seq<Event>, i: int)
    requires
        0 <= i < events.len(),
    ensures
        run_from(job, s, events.take(i + 1)) == ({
            let (before, trace) = run_from(job, s, events.take(i));
            let (after, action) = next(job, before, events[i]);
            (after, trace.push(action))
        }),
{
    assert(events.take(i + 1).drop_last() =~= events.take(i));
}

/// A run of one answer.
pub proof fn lemma_run_from_one(job: Job, s: StateView, event: Event)
    ensures
        run_from(job, s, seq![event]) == (next(job, s, event).0, seq![next(job, s, event).1]),
{
    let events = seq![event];
    assert(run_from(job, s, events.drop_last()) == (s, Seq::<ActionView>::empty()));
}

/// One more action adds one to the count of teardowns if it is one.
pub proof fn lemma_teardowns_push(trace: Seq<ActionView>, action: ActionView)
    ensures
        teardowns(trace.push(action)) == teardowns(trace) + if action is Teardown {
            1nat
        } else {
            0nat
        },
{
    assert(trace.push(action).drop_last() =~= trace);
}

/// Once the caller is told, what is asked for later does not change it.
pub proof fn lemma_answer_push(trace: Seq<ActionView>, action: ActionView)
    ensures
        answer(trace.push(action)) == match answer(trace) {
            Some(response) => Some(response),
            None => match action {
                ActionView::Respond(response) => Some(response),
                _ => None,
            },
        },
{
    assert(trace.push(action).drop_last() =~= trace);
}

/// The caller of a run that begins with an answer has that answer.
pub proof fn lemma_answered_at_once(response: ResponseView, rest: Seq<ActionView>)
    ensures
        answer(seq![ActionView::Respond(response)] + rest) == Some(response),
    decreases rest.len(),
{
    let first = seq![ActionView::Respond(response)];
    if rest.len() == 0 {
        assert(answer(first.drop_last()) is None);
    } else {
        lemma_answered_at_once(response, rest.drop_last());
        assert((first + rest).drop_last() =~= first + rest.drop_last());
    }
}

} // verus!
