//! What holds of every blocking run, proved from the transitions alone.
//!
//! A run is the sequence of events that a driver has reported since the
//! runner was created. The laws below say which sequences a runner accepts,
//! that a run can be carried on to its end from wherever it stands, and what
//! a finished run must have seen before it finished.

use crate::outcome::Outcome;
use crate::renderer::RendererChoice;
use crate::sync_runner::{sync_verdict, SyncEvent, SyncPhase, SyncRunner, SyncStep};
use vstd::prelude::*;

verus! {

/// The state reached from `start` when `events` are reported in order, or
/// `None` if one of them is out of turn.
pub open spec fn sync_run(start: SyncRunner, events: Seq<SyncEvent>) -> Option<SyncRunner>
    decreases events.len(),
{
    if events.len() == 0 {
        Some(start)
    } else {
        match sync_run(start, events.drop_last()) {
            Some(before) => before.next(events.last()),
            None => None,
        }
    }
}

/// `rounds` times in a row: the signal is read unset, then the runner sleeps.
pub open spec fn sync_waits(rounds: nat) -> Seq<SyncEvent>
    decreases rounds,
{
    if rounds == 0 {
        Seq::empty()
    } else {
        sync_waits((rounds - 1) as nat).push(SyncEvent::SignalRead(false)).push(SyncEvent::Slept)
    }
}

/// The events up to the first read of the signal and through `rounds` unset
/// reads, for a task that ended with `task`.
pub open spec fn sync_opening(task: Outcome, rounds: nat) -> Seq<SyncEvent> {
    seq![SyncEvent::Started, SyncEvent::Started, SyncEvent::TaskJoined(task)] + sync_waits(rounds)
}

/// The one sequence of events that brings a fresh runner to `phase` after
/// `rounds` unset reads of the signal. Before the task is joined there has
/// been no read, and `rounds` plays no part.
pub open spec fn sync_history(phase: SyncPhase, rounds: nat) -> Seq<SyncEvent> {
    match phase {
        SyncPhase::StartingRenderer => Seq::empty(),
        SyncPhase::StartingTask => seq![SyncEvent::Started],
        SyncPhase::JoiningTask => seq![SyncEvent::Started, SyncEvent::Started],
        SyncPhase::Polling { task } => sync_opening(task, rounds),
        SyncPhase::Sleeping { task } => sync_opening(task, rounds).push(
            SyncEvent::SignalRead(false),
        ),
        SyncPhase::JoiningRenderer { task } => sync_opening(task, rounds).push(
            SyncEvent::SignalRead(true),
        ),
        SyncPhase::Finished { task, renderer } => sync_opening(task, rounds).push(
            SyncEvent::SignalRead(true),
        ).push(SyncEvent::RendererJoined(renderer)),
    }
}

/// Reporting one more event is one more transition.
proof fn lemma_sync_run_push(start: SyncRunner, events: Seq<SyncEvent>, event: SyncEvent)
    ensures
        sync_run(start, events.push(event)) == match sync_run(start, events) {
            Some(before) => before.next(event),
            None => None,
        },
{
    assert(events.push(event).drop_last() =~= events);
}

/// The history of the polling phase is accepted and leads there.
proof fn lemma_sync_opening_runs(renderer: RendererChoice, task: Outcome, rounds: nat)
    ensures
        sync_run(SyncRunner::initial(renderer), sync_opening(task, rounds)) == Some(
            SyncRunner { renderer, phase: SyncPhase::Polling { task } },
        ),
    decreases rounds,
{
    let start = SyncRunner::initial(renderer);
    if rounds == 0 {
        let none = Seq::<SyncEvent>::empty();
        assert(sync_opening(task, 0) =~= none.push(SyncEvent::Started).push(
            SyncEvent::Started,
        ).push(SyncEvent::TaskJoined(task)));
        lemma_sync_run_push(start, none, SyncEvent::Started);
        lemma_sync_run_push(start, none.push(SyncEvent::Started), SyncEvent::Started);
        lemma_sync_run_push(
            start,
            none.push(SyncEvent::Started).push(SyncEvent::Started),
            SyncEvent::TaskJoined(task),
        );
    } else {
        let shorter = sync_opening(task, (rounds - 1) as nat);
        lemma_sync_opening_runs(renderer, task, (rounds - 1) as nat);
        assert(sync_opening(task, rounds) =~= shorter.push(SyncEvent::SignalRead(false)).push(
            SyncEvent::Slept,
        ));
        lemma_sync_run_push(start, shorter, SyncEvent::SignalRead(false));
        lemma_sync_run_push(start, shorter.push(SyncEvent::SignalRead(false)), SyncEvent::Slept);
    }
}

/// Every history is a run: reported to a fresh runner, the events of
/// `sync_history(phase, rounds)` are all accepted and lead to `phase`.
///
/// In particular a run cannot get stuck for want of an acceptable report:
/// however many reads find the signal unset, the read that finds it set and
/// the join that follows bring the run to its end.
pub proof fn law_sync_history_is_accepted(renderer: RendererChoice, phase: SyncPhase, rounds: nat)
    ensures
        sync_run(SyncRunner::initial(renderer), sync_history(phase, rounds)) == Some(
            SyncRunner { renderer, phase },
        ),
{
    let start = SyncRunner::initial(renderer);
    let none = Seq::<SyncEvent>::empty();
    match phase {
        SyncPhase::StartingRenderer => {},
        SyncPhase::StartingTask => {
            assert(sync_history(phase, rounds) =~= none.push(SyncEvent::Started));
            lemma_sync_run_push(start, none, SyncEvent::Started);
        },
        SyncPhase::JoiningTask => {
            assert(sync_history(phase, rounds) =~= none.push(SyncEvent::Started).push(
                SyncEvent::Started,
            ));
            lemma_sync_run_push(start, none, SyncEvent::Started);
            lemma_sync_run_push(start, none.push(SyncEvent::Started), SyncEvent::Started);
        },
        SyncPhase::Polling { task } => {
            lemma_sync_opening_runs(renderer, task, rounds);
        },
        SyncPhase::Sleeping { task } => {
            lemma_sync_opening_runs(renderer, task, rounds);
            lemma_sync_run_push(start, sync_opening(task, rounds), SyncEvent::SignalRead(false));
        },
        SyncPhase::JoiningRenderer { task } => {
            lemma_sync_opening_runs(renderer, task, rounds);
            lemma_sync_run_push(start, sync_opening(task, rounds), SyncEvent::SignalRead(true));
        },
        SyncPhase::Finished { task, renderer: ended } => {
            let seen = sync_opening(task, rounds).push(SyncEvent::SignalRead(true));
            lemma_sync_opening_runs(renderer, task, rounds);
            lemma_sync_run_push(start, sync_opening(task, rounds), SyncEvent::SignalRead(true));
            lemma_sync_run_push(start, seen, SyncEvent::RendererJoined(ended));
        },
    }
}

/// Every run is a history: if a fresh runner accepts `events`, they are
/// exactly the history of the phase it is then in, for the number of rounds
/// that the law returns. The renderer is still the one the run began with.
pub proof fn law_sync_run_is_history(renderer: RendererChoice, events: Seq<SyncEvent>) -> (rounds:
    nat)
    requires
        sync_run(SyncRunner::initial(renderer), events) is Some,
    ensures
        sync_run(SyncRunner::initial(renderer), events).unwrap().renderer == renderer,
        events == sync_history(
            sync_run(SyncRunner::initial(renderer), events).unwrap().phase,
            rounds,
        ),
    decreases events.len(),
{
    if events.len() == 0 {
        assert(events =~= Seq::<SyncEvent>::empty());
        0
    } else {
        let earlier = events.drop_last();
        let event = events.last();
        let before = sync_run(SyncRunner::initial(renderer), earlier).unwrap();
        let earlier_rounds = law_sync_run_is_history(renderer, earlier);
        assert(events =~= earlier.push(event));
        let after = before.next(event).unwrap();
        match before.phase {
            SyncPhase::StartingRenderer => {
                assert(events =~= seq![SyncEvent::Started]);
                earlier_rounds
            },
            SyncPhase::StartingTask => {
                assert(events =~= seq![SyncEvent::Started, SyncEvent::Started]);
                earlier_rounds
            },
            SyncPhase::JoiningTask => {
                assert(sync_waits(0) =~= Seq::<SyncEvent>::empty());
                assert(events =~= sync_history(after.phase, 0));
                0
            },
            SyncPhase::Sleeping { task } => {
                let rounds = earlier_rounds + 1;
                assert(events =~= sync_opening(task, rounds));
                rounds
            },
            _ => earlier_rounds,
        }
    }
}

/// `sync_waits(rounds)` holds `rounds` pairs of an unset read and a sleep.
proof fn lemma_sync_waits_shape(rounds: nat)
    ensures
        sync_waits(rounds).len() == 2 * rounds,
        forall|i: int|
            0 <= i < 2 * rounds ==> #[trigger] sync_waits(rounds)[i] == if i % 2 == 0 {
                SyncEvent::SignalRead(false)
            } else {
                SyncEvent::Slept
            },
    decreases rounds,
{
    if rounds > 0 {
        lemma_sync_waits_shape((rounds - 1) as nat);
    }
}

/// An event is accepted exactly when it answers the pending step, whatever
/// state the runner is in. Hence an unfinished run always has a report that
/// carries it on, and a finished run accepts nothing more.
pub proof fn law_sync_accepts_the_answer(runner: SyncRunner, event: SyncEvent)
    ensures
        runner.next(event) is Some <==> runner.step().answered_by(event),
        runner.finished() ==> runner.next(event) is None,
        !runner.finished() ==> exists|answer: SyncEvent| #[trigger] runner.next(answer) is Some,
{
    if !runner.finished() {
        let answer = match runner.phase {
            SyncPhase::StartingRenderer | SyncPhase::StartingTask => SyncEvent::Started,
            SyncPhase::JoiningTask => SyncEvent::TaskJoined(Outcome::Completed),
            SyncPhase::Polling { .. } => SyncEvent::SignalRead(true),
            SyncPhase::Sleeping { .. } => SyncEvent::Slept,
            _ => SyncEvent::RendererJoined(Outcome::Completed),
        };
        assert(runner.next(answer) is Some);
    }
}

/// A run that has finished has seen, in this order and each exactly once:
/// both contexts started, the task joined, the signal read as set, and the
/// renderer joined. Between the join of the task and the read that found the
/// signal set lie only reads that found it unset, each followed by a sleep.
///
/// So the runner hands control back only after the task has ended and only
/// after the renderer has finished by itself, and how it ends is decided by
/// the two outcomes that were reported.
pub proof fn law_sync_finished_run(renderer: RendererChoice, events: Seq<SyncEvent>)
    requires
        sync_run(SyncRunner::initial(renderer), events) is Some,
        sync_run(SyncRunner::initial(renderer), events).unwrap().finished(),
    ensures
        events.len() >= 5,
        events.len() % 2 == 1,
        events[0] == SyncEvent::Started,
        events[1] == SyncEvent::Started,
        events[2] is TaskJoined,
        forall|i: int|
            3 <= i < events.len() - 2 ==> #[trigger] events[i] == if i % 2 == 1 {
                SyncEvent::SignalRead(false)
            } else {
                SyncEvent::Slept
            },
        events[events.len() - 2] == SyncEvent::SignalRead(true),
        events[events.len() - 1] is RendererJoined,
        sync_run(SyncRunner::initial(renderer), events).unwrap().phase == (SyncPhase::Finished {
            task: events[2]->TaskJoined_0,
            renderer: events[events.len() - 1]->RendererJoined_0,
        }),
        sync_run(SyncRunner::initial(renderer), events).unwrap().step() == sync_verdict(
            events[2]->TaskJoined_0,
            events[events.len() - 1]->RendererJoined_0,
        ),
{
    let rounds = law_sync_run_is_history(renderer, events);
    lemma_sync_waits_shape(rounds);
    let waits = sync_waits(rounds);
    assert forall|i: int| 3 <= i < events.len() - 2 implies #[trigger] events[i] == if i % 2
        == 1 {
        SyncEvent::SignalRead(false)
    } else {
        SyncEvent::Slept
    } by {
        assert(events[i] == waits[i - 3]);
    }
}

/// A fault of the task is never swallowed: a finished run raises the task's
/// fault exactly when the task was reported as faulted, and returns normally
/// exactly when both the task and the renderer were reported as completed.
pub proof fn law_sync_task_fault_is_raised(renderer: RendererChoice, events: Seq<SyncEvent>)
    requires
        sync_run(SyncRunner::initial(renderer), events) is Some,
        sync_run(SyncRunner::initial(renderer), events).unwrap().finished(),
    ensures
        sync_run(SyncRunner::initial(renderer), events).unwrap().step() is RaiseTaskFault
            <==> events.contains(SyncEvent::TaskJoined(Outcome::Faulted)),
        sync_run(SyncRunner::initial(renderer), events).unwrap().step() is Return <==> (
        events.contains(SyncEvent::TaskJoined(Outcome::Completed)) && events.contains(
            SyncEvent::RendererJoined(Outcome::Completed),
        )),
{
    law_sync_finished_run(renderer, events);
}

/// The renderer that a run starts is the one it was created with, and it is
/// started once: the step to start it is pending only before any report.
pub proof fn law_sync_starts_chosen_renderer(renderer: RendererChoice, events: Seq<SyncEvent>)
    requires
        sync_run(SyncRunner::initial(renderer), events) is Some,
    ensures
        sync_run(SyncRunner::initial(renderer), events).unwrap().renderer == renderer,
        events.len() == 0 ==> sync_run(SyncRunner::initial(renderer), events).unwrap().step()
            == SyncStep::StartRenderer(renderer),
        events.len() > 0 ==> !(sync_run(SyncRunner::initial(renderer), events).unwrap().step()
            is StartRenderer),
{
    let rounds = law_sync_run_is_history(renderer, events);
    lemma_sync_waits_shape(rounds);
}

/// The reports still to come in a run that stands at `phase`, if the task
/// ends with `task`, the signal is found unset `waits` more times before it
/// is found set, and the renderer ends with `renderer`. An outcome that the
/// run has already been told plays no part.
pub open spec fn sync_remainder(phase: SyncPhase, task: Outcome, renderer: Outcome, waits: nat)
    -> Seq<SyncEvent> {
    let closing = sync_waits(waits).push(SyncEvent::SignalRead(true)).push(
        SyncEvent::RendererJoined(renderer),
    );
    match phase {
        SyncPhase::StartingRenderer => seq![
            SyncEvent::Started,
            SyncEvent::Started,
            SyncEvent::TaskJoined(task),
        ] + closing,
        SyncPhase::StartingTask => seq![SyncEvent::Started, SyncEvent::TaskJoined(task)] + closing,
        SyncPhase::JoiningTask => seq![SyncEvent::TaskJoined(task)] + closing,
        SyncPhase::Polling { .. } => closing,
        SyncPhase::Sleeping { .. } => seq![SyncEvent::Slept] + closing,
        SyncPhase::JoiningRenderer { .. } => seq![SyncEvent::RendererJoined(renderer)],
        SyncPhase::Finished { .. } => Seq::empty(),
    }
}

/// The phase in which a run that stands at `phase` ends, if the outcomes
/// that it has not yet been told are `task` and `renderer`.
pub open spec fn sync_end(phase: SyncPhase, task: Outcome, renderer: Outcome) -> SyncPhase {
    match phase {
        SyncPhase::StartingRenderer | SyncPhase::StartingTask | SyncPhase::JoiningTask => {
            SyncPhase::Finished { task, renderer }
        },
        SyncPhase::Polling { task: told } | SyncPhase::Sleeping { task: told }
        | SyncPhase::JoiningRenderer { task: told } => SyncPhase::Finished {
            task: told,
            renderer,
        },
        SyncPhase::Finished { .. } => phase,
    }
}

/// Reporting two sequences one after the other is reporting the second to
/// the state that the first led to.
proof fn lemma_sync_run_concat(start: SyncRunner, first: Seq<SyncEvent>, second: Seq<SyncEvent>)
    ensures
        sync_run(start, first + second) == match sync_run(start, first) {
            Some(between) => sync_run(between, second),
            None => None,
        },
    decreases second.len(),
{
    if second.len() == 0 {
        assert(first + second =~= first);
    } else {
        lemma_sync_run_concat(start, first, second.drop_last());
        assert((first + second).drop_last() =~= first + second.drop_last());
    }
}

/// Rounds of an unset read and a sleep leave a polling run where it was.
proof fn lemma_sync_waits_run(polling: SyncRunner, waits: nat)
    requires
        polling.phase is Polling,
    ensures
        sync_run(polling, sync_waits(waits)) == Some(polling),
    decreases waits,
{
    if waits > 0 {
        let shorter = sync_waits((waits - 1) as nat);
        lemma_sync_waits_run(polling, (waits - 1) as nat);
        lemma_sync_run_push(polling, shorter, SyncEvent::SignalRead(false));
        lemma_sync_run_push(polling, shorter.push(SyncEvent::SignalRead(false)), SyncEvent::Slept);
    }
}

/// No run can get stuck. Wherever a run stands, the reports that are still
/// to come are all accepted and bring it to its end: the task joins, the
/// signal is found unset any number of times and then set, the renderer
/// joins. With `waits` unset reads that takes at most `2 * waits + 5`
/// reports.
pub proof fn law_sync_run_can_finish(
    runner: SyncRunner,
    task: Outcome,
    renderer: Outcome,
    waits: nat,
)
    ensures
        sync_run(runner, sync_remainder(runner.phase, task, renderer, waits)) == Some(
            SyncRunner {
                renderer: runner.renderer,
                phase: sync_end(runner.phase, task, renderer),
            },
        ),
        sync_end(runner.phase, task, renderer) is Finished,
        sync_remainder(runner.phase, task, renderer, waits).len() <= 2 * waits + 5,
{
    let rest = sync_remainder(runner.phase, task, renderer, waits);
    let none = Seq::<SyncEvent>::empty();
    lemma_sync_waits_shape(waits);
    match runner.phase {
        SyncPhase::Finished { .. } => {},
        SyncPhase::JoiningRenderer { .. } => {
            assert(rest =~= none.push(SyncEvent::RendererJoined(renderer)));
            lemma_sync_run_push(runner, none, SyncEvent::RendererJoined(renderer));
        },
        _ => {
            let told = match runner.phase {
                SyncPhase::Polling { task: told } | SyncPhase::Sleeping { task: told } => told,
                _ => task,
            };
            let lead = match runner.phase {
                SyncPhase::StartingRenderer => none.push(SyncEvent::Started).push(
                    SyncEvent::Started,
                ).push(SyncEvent::TaskJoined(task)),
                SyncPhase::StartingTask => none.push(SyncEvent::Started).push(
                    SyncEvent::TaskJoined(task),
                ),
                SyncPhase::JoiningTask => none.push(SyncEvent::TaskJoined(task)),
                SyncPhase::Sleeping { .. } => none.push(SyncEvent::Slept),
                _ => none,
            };
            let polling = SyncRunner {
                renderer: runner.renderer,
                phase: SyncPhase::Polling { task: told },
            };
            match runner.phase {
                SyncPhase::StartingRenderer => {
                    let one = none.push(SyncEvent::Started);
                    lemma_sync_run_push(runner, none, SyncEvent::Started);
                    lemma_sync_run_push(runner, one, SyncEvent::Started);
                    lemma_sync_run_push(
                        runner,
                        one.push(SyncEvent::Started),
                        SyncEvent::TaskJoined(task),
                    );
                },
                SyncPhase::StartingTask => {
                    lemma_sync_run_push(runner, none, SyncEvent::Started);
                    lemma_sync_run_push(
                        runner,
                        none.push(SyncEvent::Started),
                        SyncEvent::TaskJoined(task),
                    );
                },
                SyncPhase::JoiningTask => {
                    lemma_sync_run_push(runner, none, SyncEvent::TaskJoined(task));
                },
                SyncPhase::Sleeping { .. } => {
                    lemma_sync_run_push(runner, none, SyncEvent::Slept);
                },
                _ => {},
            }
            assert(sync_run(runner, lead) == Some(polling));
            let waited = sync_waits(waits);
            let set = waited.push(SyncEvent::SignalRead(true));
            lemma_sync_waits_run(polling, waits);
            lemma_sync_run_push(polling, waited, SyncEvent::SignalRead(true));
            lemma_sync_run_push(polling, set, SyncEvent::RendererJoined(renderer));
            lemma_sync_run_concat(runner, lead, set.push(SyncEvent::RendererJoined(renderer)));
            assert(rest =~= lead + set.push(SyncEvent::RendererJoined(renderer)));
        },
    }
}

} // verus!
