//! The cooperative runner: schedule the renderer, schedule the task, await
//! the task, then cancel the renderer without waiting for it.
//!
//! Unlike the blocking runner this one does not let the animation play out.
//! As soon as the task has settled it asks for the renderer to be cancelled,
//! whether or not the renderer has already ended, and finishes at once. The
//! task itself is never cancelled. A fault of the task is raised after the
//! cancellation has been requested.

use crate::outcome::{OutOfTurn, Outcome};
use crate::renderer::RendererChoice;
use tokio::task::JoinHandle;
use vstd::prelude::*;

verus! {

/// tokio's handle to a scheduled task. Nothing of its inside is used here.
#[verifier::external_type_specification]
#[verifier::external_body]
#[verifier::reject_recursive_types(T)]
pub struct ExJoinHandle<T>(tokio::task::JoinHandle<T>);

/// tokio's report of a task that did not run to its end. It is what
/// awaiting a `JoinHandle` gives in place of the task's result, and is
/// declared because the handle's type mentions it. Nothing of its inside is
/// used here.
#[verifier::external_type_specification]
#[verifier::external_body]
pub struct ExJoinError(tokio::task::JoinError);

/// `JoinHandle::abort` asks the runtime to cancel the task and returns at
/// once, whether or not the task has already ended. It gives nothing back,
/// and nothing is claimed of when or whether the task stops.
pub assume_specification<T>[ tokio::task::JoinHandle::<T>::abort ](handle: &JoinHandle<T>);

/// What the driver must do next.
#[derive(Clone, Copy, Debug, PartialEq, Eq)]
pub enum AsyncStep {
    /// Schedule a task that calls the chosen renderer.
    ScheduleRenderer(RendererChoice),
    /// Schedule a task that calls the work.
    ScheduleTask,
    /// Suspend until the work has settled.
    AwaitTask,
    /// Ask for the renderer's task to be cancelled; do not wait for it.
    CancelRenderer,
    /// Hand control back to the caller.
    Return,
    /// Raise the task's fault to the caller.
    RaiseTaskFault,
}

/// What the driver reports after carrying out a step.
#[derive(Clone, Copy, Debug, PartialEq, Eq)]
pub enum AsyncEvent {
    /// The task asked for has been scheduled.
    Scheduled,
    /// The work has settled.
    TaskSettled(Outcome),
    /// The cancellation has been requested.
    CancelRequested,
}

/// Where a run stands, with what it has learned so far.
#[derive(Clone, Copy, Debug, PartialEq, Eq)]
pub enum AsyncPhase {
    /// Nothing has been scheduled.
    SchedulingRenderer,
    /// The renderer is scheduled; the work is not.
    SchedulingTask,
    /// Renderer and work are scheduled.
    AwaitingTask,
    /// The work has settled; the renderer is about to be cancelled.
    Cancelling { task: Outcome },
    /// The cancellation has been requested.
    Finished { task: Outcome },
}

/// The state of one cooperative run.
#[derive(Clone, Copy, Debug, PartialEq, Eq)]
pub struct AsyncRunner {
    /// The renderer of this run.
    pub renderer: RendererChoice,
    /// How far the run has come.
    pub phase: AsyncPhase,
}

/// How a run ends, given how the work settled.
pub open spec fn async_verdict(task: Outcome) -> AsyncStep {
    if task is Faulted {
        AsyncStep::RaiseTaskFault
    } else {
        AsyncStep::Return
    }
}

impl AsyncStep {
    /// Whether `event` is a report of this step having been carried out.
    /// Nothing answers the two steps that end a run.
    pub open spec fn answered_by(self, event: AsyncEvent) -> bool {
        match self {
            AsyncStep::ScheduleRenderer(_) | AsyncStep::ScheduleTask => event is Scheduled,
            AsyncStep::AwaitTask => event is TaskSettled,
            AsyncStep::CancelRenderer => event is CancelRequested,
            AsyncStep::Return | AsyncStep::RaiseTaskFault => false,
        }
    }
}

impl AsyncRunner {
    /// The state before anything has been scheduled.
    pub open spec fn initial(renderer: RendererChoice) -> AsyncRunner {
        AsyncRunner { renderer, phase: AsyncPhase::SchedulingRenderer }
    }

    /// The step that the run is waiting on.
    pub open spec fn step(self) -> AsyncStep {
        match self.phase {
            AsyncPhase::SchedulingRenderer => AsyncStep::ScheduleRenderer(self.renderer),
            AsyncPhase::SchedulingTask => AsyncStep::ScheduleTask,
            AsyncPhase::AwaitingTask => AsyncStep::AwaitTask,
            AsyncPhase::Cancelling { .. } => AsyncStep::CancelRenderer,
            AsyncPhase::Finished { task } => async_verdict(task),
        }
    }

    /// Whether the run is over: nothing is left but to return or to raise.
    pub open spec fn finished(self) -> bool {
        self.phase is Finished
    }

    /// The state that follows when `event` is reported, or `None` if `event`
    /// does not answer the pending step. The renderer of a run never changes.
    pub open spec fn next(self, event: AsyncEvent) -> Option<AsyncRunner> {
        let renderer = self.renderer;
        match (self.phase, event) {
            (AsyncPhase::SchedulingRenderer, AsyncEvent::Scheduled) => Some(
                AsyncRunner { renderer, phase: AsyncPhase::SchedulingTask },
            ),
            (AsyncPhase::SchedulingTask, AsyncEvent::Scheduled) => Some(
                AsyncRunner { renderer, phase: AsyncPhase::AwaitingTask },
            ),
            (AsyncPhase::AwaitingTask, AsyncEvent::TaskSettled(task)) => Some(
                AsyncRunner { renderer, phase: AsyncPhase::Cancelling { task } },
            ),
            (AsyncPhase::Cancelling { task }, AsyncEvent::CancelRequested) => Some(
                AsyncRunner { renderer, phase: AsyncPhase::Finished { task } },
            ),
            _ => None,
        }
    }

    /// A run with nothing scheduled yet. Its first step is to schedule
    /// `renderer`.
    pub fn new(renderer: RendererChoice) -> (runner: AsyncRunner)
        ensures
            runner == AsyncRunner::initial(renderer),
    {
        AsyncRunner { renderer, phase: AsyncPhase::SchedulingRenderer }
    }

    /// The step that the driver must carry out now.
    pub fn pending(&self) -> (step: AsyncStep)
        ensures
            step == self.step(),
    {
        match self.phase {
            AsyncPhase::SchedulingRenderer => AsyncStep::ScheduleRenderer(self.renderer),
            AsyncPhase::SchedulingTask => AsyncStep::ScheduleTask,
            AsyncPhase::AwaitingTask => AsyncStep::AwaitTask,
            AsyncPhase::Cancelling { .. } => AsyncStep::CancelRenderer,
            AsyncPhase::Finished { task: Outcome::Faulted } => AsyncStep::RaiseTaskFault,
            AsyncPhase::Finished { task: Outcome::Completed } => AsyncStep::Return,
        }
    }

    /// Whether the run is over.
    pub fn is_finished(&self) -> (done: bool)
        ensures
            done == self.finished(),
    {
        match self.phase {
            AsyncPhase::Finished { .. } => true,
            _ => false,
        }
    }

    /// Takes the report of the step just carried out and moves on.
    ///
    /// Returns the next step if `event` answers the pending one. Otherwise
    /// the runner is unchanged and the result is `Err`; a finished run
    /// accepts no event.
    pub fn advance(&mut self, event: AsyncEvent) -> (result: Result<AsyncStep, OutOfTurn>)
        ensures
            result is Ok <==> old(self).step().answered_by(event),
            match old(self).next(event) {
                Some(after) => *final(self) == after && result == Ok::<AsyncStep, OutOfTurn>(
                    after.step(),
                ),
                None => *final(self) == *old(self) && result is Err,
            },
    {
        let phase = match (self.phase, event) {
            (AsyncPhase::SchedulingRenderer, AsyncEvent::Scheduled) => AsyncPhase::SchedulingTask,
            (AsyncPhase::SchedulingTask, AsyncEvent::Scheduled) => AsyncPhase::AwaitingTask,
            (AsyncPhase::AwaitingTask, AsyncEvent::TaskSettled(task)) => {
                AsyncPhase::Cancelling { task }
            },
            (AsyncPhase::Cancelling { task }, AsyncEvent::CancelRequested) => {
                AsyncPhase::Finished { task }
            },
            _ => {
                return Err(OutOfTurn);
            },
        };
        self.phase = phase;
        Ok(self.pending())
    }

    /// Carries out the step [`AsyncStep::CancelRenderer`] on the renderer's
    /// task and reports it.
    ///
    /// If that step is pending, the cancellation of `renderer` is requested
    /// and the run moves on as by `advance(AsyncEvent::CancelRequested)`. If
    /// any other step is pending, `renderer` is left alone, the runner is
    /// unchanged and the result is `Err`.
    pub fn cancel_renderer<T>(&mut self, renderer: &JoinHandle<T>) -> (result: Result<
        AsyncStep,
        OutOfTurn,
    >)
        ensures
            result is Ok <==> old(self).step() is CancelRenderer,
            match old(self).next(AsyncEvent::CancelRequested) {
                Some(after) => *final(self) == after && result == Ok::<AsyncStep, OutOfTurn>(
                    after.step(),
                ),
                None => *final(self) == *old(self) && result is Err,
            },
    {
        match self.phase {
            AsyncPhase::Cancelling { .. } => {
                renderer.abort();
                self.advance(AsyncEvent::CancelRequested)
            },
            _ => Err(OutOfTurn),
        }
    }
}

} // verus!
