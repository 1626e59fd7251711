//! What holds of every cooperative run, proved from the transitions alone.
//!
//! A run is the sequence of events that a driver has reported since the
//! runner was created. The laws below say which sequences a runner accepts,
//! that a run can be carried on to its end from wherever it stands, and what
//! a finished run must have seen before it finished.

use crate::async_runner::{async_verdict, AsyncEvent, AsyncPhase, AsyncRunner, AsyncStep};
use crate::outcome::Outcome;
use crate::renderer::RendererChoice;
use vstd::prelude::*;

verus! {

/// The state reached from `start` when `events` are reported in order, or
/// `None` if one of them is out of turn.
pub open spec fn async_run(start: AsyncRunner, events: Seq<AsyncEvent>) -> Option<AsyncRunner>
    decreases events.len(),
{
    if events.len() == 0 {
        Some(start)
    } else {
        match async_run(start, events.drop_last()) {
            Some(before) => before.next(events.last()),
            None => None,
        }
    }
}

/// The one sequence of events that brings a fresh runner to `phase`.
pub open spec fn async_history(phase: AsyncPhase) -> Seq<AsyncEvent> {
    match phase {
        AsyncPhase::SchedulingRenderer => Seq::empty(),
        AsyncPhase::SchedulingTask => seq![AsyncEvent::Scheduled],
        AsyncPhase::AwaitingTask => seq![AsyncEvent::Scheduled, AsyncEvent::Scheduled],
        AsyncPhase::Cancelling { task } => seq![
            AsyncEvent::Scheduled,
            AsyncEvent::Scheduled,
            AsyncEvent::TaskSettled(task),
        ],
        AsyncPhase::Finished { task } => seq![
            AsyncEvent::Scheduled,
            AsyncEvent::Scheduled,
            AsyncEvent::TaskSettled(task),
            AsyncEvent::CancelRequested,
        ],
    }
}

/// Reporting one more event is one more transition.
proof fn lemma_async_run_push(start: AsyncRunner, events: Seq<AsyncEvent>, event: AsyncEvent)
    ensures
        async_run(start, events.push(event)) == match async_run(start, events) {
            Some(before) => before.next(event),
            None => None,
        },
{
    assert(events.push(event).drop_last() =~= events);
}

/// Every history is a run: reported to a fresh runner, the events of
/// `async_history(phase)` are all accepted and lead to `phase`. A run comes
/// to its end with four reports, none of which says anything of how far the
/// renderer has come.
pub proof fn law_async_history_is_accepted(renderer: RendererChoice, phase: AsyncPhase)
    ensures
        async_run(AsyncRunner::initial(renderer), async_history(phase)) == Some(
            AsyncRunner { renderer, phase },
        ),
{
    let start = AsyncRunner::initial(renderer);
    let none = Seq::<AsyncEvent>::empty();
    let one = none.push(AsyncEvent::Scheduled);
    let two = one.push(AsyncEvent::Scheduled);
    lemma_async_run_push(start, none, AsyncEvent::Scheduled);
    lemma_async_run_push(start, one, AsyncEvent::Scheduled);
    match phase {
        AsyncPhase::SchedulingRenderer => {},
        AsyncPhase::SchedulingTask => {
            assert(async_history(phase) =~= one);
        },
        AsyncPhase::AwaitingTask => {
            assert(async_history(phase) =~= two);
        },
        AsyncPhase::Cancelling { task } => {
            let three = two.push(AsyncEvent::TaskSettled(task));
            lemma_async_run_push(start, two, AsyncEvent::TaskSettled(task));
            assert(async_history(phase) =~= three);
        },
        AsyncPhase::Finished { task } => {
            let three = two.push(AsyncEvent::TaskSettled(task));
            lemma_async_run_push(start, two, AsyncEvent::TaskSettled(task));
            lemma_async_run_push(start, three, AsyncEvent::CancelRequested);
            assert(async_history(phase) =~= three.push(AsyncEvent::CancelRequested));
        },
    }
}

/// Every run is a history: if a fresh runner accepts `events`, they are
/// exactly the history of the phase it is then in. The renderer is still the
/// one the run began with.
pub proof fn law_async_run_is_history(renderer: RendererChoice, events: Seq<AsyncEvent>)
    requires
        async_run(AsyncRunner::initial(renderer), events) is Some,
    ensures
        async_run(AsyncRunner::initial(renderer), events).unwrap().renderer == renderer,
        events == async_history(async_run(AsyncRunner::initial(renderer), events).unwrap().phase),
    decreases events.len(),
{
    if events.len() == 0 {
        assert(events =~= Seq::<AsyncEvent>::empty());
    } else {
        let earlier = events.drop_last();
        let event = events.last();
        law_async_run_is_history(renderer, earlier);
        let before = async_run(AsyncRunner::initial(renderer), earlier).unwrap();
        let after = before.next(event).unwrap();
        assert(events =~= earlier.push(event));
        assert(events =~= async_history(after.phase));
    }
}

/// An event is accepted exactly when it answers the pending step, whatever
/// state the runner is in. Hence an unfinished run always has a report that
/// carries it on, and a finished run accepts nothing more.
pub proof fn law_async_accepts_the_answer(runner: AsyncRunner, event: AsyncEvent)
    ensures
        runner.next(event) is Some <==> runner.step().answered_by(event),
        runner.finished() ==> runner.next(event) is None,
        !runner.finished() ==> exists|answer: AsyncEvent| #[trigger] runner.next(answer) is Some,
{
    if !runner.finished() {
        let answer = match runner.phase {
            AsyncPhase::SchedulingRenderer | AsyncPhase::SchedulingTask => AsyncEvent::Scheduled,
            AsyncPhase::AwaitingTask => AsyncEvent::TaskSettled(Outcome::Completed),
            _ => AsyncEvent::CancelRequested,
        };
        assert(runner.next(answer) is Some);
    }
}

/// A run that has finished has seen exactly four reports: both tasks
/// scheduled, the work settled, and the renderer's cancellation requested.
///
/// So the runner resolves only after the work has settled; it requests the
/// cancellation once, after that and whatever the outcome was; it waits for
/// no word from the renderer; and it raises the task's fault exactly when
/// the work was reported as faulted.
pub proof fn law_async_finished_run(renderer: RendererChoice, events: Seq<AsyncEvent>)
    requires
        async_run(AsyncRunner::initial(renderer), events) is Some,
        async_run(AsyncRunner::initial(renderer), events).unwrap().finished(),
    ensures
        events.len() == 4,
        events[0] == AsyncEvent::Scheduled,
        events[1] == AsyncEvent::Scheduled,
        events[2] is TaskSettled,
        events[3] == AsyncEvent::CancelRequested,
        async_run(AsyncRunner::initial(renderer), events).unwrap().phase == (AsyncPhase::Finished {
            task: events[2]->TaskSettled_0,
        }),
        async_run(AsyncRunner::initial(renderer), events).unwrap().step() == async_verdict(
            events[2]->TaskSettled_0,
        ),
        async_run(AsyncRunner::initial(renderer), events).unwrap().step() is RaiseTaskFault
            <==> events[2] == AsyncEvent::TaskSettled(Outcome::Faulted),
{
    law_async_run_is_history(renderer, events);
}

/// The renderer that a run schedules is the one it was created with, and it
/// is scheduled once: the step to schedule it is pending only before any
/// report. The step to cancel it is pending only right after the work has
/// settled.
pub proof fn law_async_schedules_chosen_renderer(renderer: RendererChoice, events: Seq<AsyncEvent>)
    requires
        async_run(AsyncRunner::initial(renderer), events) is Some,
    ensures
        async_run(AsyncRunner::initial(renderer), events).unwrap().renderer == renderer,
        events.len() == 0 ==> async_run(AsyncRunner::initial(renderer), events).unwrap().step()
            == AsyncStep::ScheduleRenderer(renderer),
        events.len() > 0 ==> !(async_run(AsyncRunner::initial(renderer), events).unwrap().step()
            is ScheduleRenderer),
        async_run(AsyncRunner::initial(renderer), events).unwrap().step() is CancelRenderer <==> (
        events.len() == 3 && events[2] is TaskSettled),
{
    law_async_run_is_history(renderer, events);
}

/// The reports still to come in a run that stands at `phase`, if the work
/// settles with `task`. An outcome that the run has already been told plays
/// no part.
pub open spec fn async_remainder(phase: AsyncPhase, task: Outcome) -> Seq<AsyncEvent> {
    match phase {
        AsyncPhase::SchedulingRenderer => seq![
            AsyncEvent::Scheduled,
            AsyncEvent::Scheduled,
            AsyncEvent::TaskSettled(task),
            AsyncEvent::CancelRequested,
        ],
        AsyncPhase::SchedulingTask => seq![
            AsyncEvent::Scheduled,
            AsyncEvent::TaskSettled(task),
            AsyncEvent::CancelRequested,
        ],
        AsyncPhase::AwaitingTask => seq![
            AsyncEvent::TaskSettled(task),
            AsyncEvent::CancelRequested,
        ],
        AsyncPhase::Cancelling { .. } => seq![AsyncEvent::CancelRequested],
        AsyncPhase::Finished { .. } => Seq::empty(),
    }
}

/// The phase in which a run that stands at `phase` ends, if the outcome of
/// the work, where the run has not yet been told it, is `task`.
pub open spec fn async_end(phase: AsyncPhase, task: Outcome) -> AsyncPhase {
    match phase {
        AsyncPhase::Cancelling { task: told } | AsyncPhase::Finished { task: told } => {
            AsyncPhase::Finished { task: told }
        },
        _ => AsyncPhase::Finished { task },
    }
}

/// No run can get stuck. Wherever a run stands, the reports that are still
/// to come are all accepted and bring it to its end, and there are at most
/// four of them. None of them waits on the renderer.
pub proof fn law_async_run_can_finish(runner: AsyncRunner, task: Outcome)
    ensures
        async_run(runner, async_remainder(runner.phase, task)) == Some(
            AsyncRunner { renderer: runner.renderer, phase: async_end(runner.phase, task) },
        ),
        async_end(runner.phase, task) is Finished,
        async_remainder(runner.phase, task).len() <= 4,
{
    let none = Seq::<AsyncEvent>::empty();
    let rest = async_remainder(runner.phase, task);
    match runner.phase {
        AsyncPhase::SchedulingRenderer => {
            let one = none.push(AsyncEvent::Scheduled);
            let two = one.push(AsyncEvent::Scheduled);
            let three = two.push(AsyncEvent::TaskSettled(task));
            lemma_async_run_push(runner, none, AsyncEvent::Scheduled);
            lemma_async_run_push(runner, one, AsyncEvent::Scheduled);
            lemma_async_run_push(runner, two, AsyncEvent::TaskSettled(task));
            lemma_async_run_push(runner, three, AsyncEvent::CancelRequested);
            assert(rest =~= three.push(AsyncEvent::CancelRequested));
        },
        AsyncPhase::SchedulingTask => {
            let one = none.push(AsyncEvent::Scheduled);
            let two = one.push(AsyncEvent::TaskSettled(task));
            lemma_async_run_push(runner, none, AsyncEvent::Scheduled);
            lemma_async_run_push(runner, one, AsyncEvent::TaskSettled(task));
            lemma_async_run_push(runner, two, AsyncEvent::CancelRequested);
            assert(rest =~= two.push(AsyncEvent::CancelRequested));
        },
        AsyncPhase::AwaitingTask => {
            let one = none.push(AsyncEvent::TaskSettled(task));
            lemma_async_run_push(runner, none, AsyncEvent::TaskSettled(task));
            lemma_async_run_push(runner, one, AsyncEvent::CancelRequested);
            assert(rest =~= one.push(AsyncEvent::CancelRequested));
        },
        AsyncPhase::Cancelling { .. } => {
            lemma_async_run_push(runner, none, AsyncEvent::CancelRequested);
            assert(rest =~= none.push(AsyncEvent::CancelRequested));
        },
        AsyncPhase::Finished { .. } => {},
    }
}

} // verus!
