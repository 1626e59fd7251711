//! The blocking runner: start the renderer, start the task, wait for the
//! task, then wait until the renderer has finished on its own.
//!
//! The runner never cancels anything. Once the task has been joined it polls
//! the completion signal, sleeping [`POLL_INTERVAL_MS`] between reads, and
//! joins the renderer's context only after a read has found the signal set.
//! A fault of the task is kept until then and raised last, so the animation
//! is never left half drawn.

use crate::outcome::{OutOfTurn, Outcome};
use crate::renderer::RendererChoice;
use crate::signal::CompletionSignal;
use vstd::prelude::*;

verus! {

/// Milliseconds that the runner sleeps between two reads of the signal.
pub const POLL_INTERVAL_MS: u64 = 100;

/// What the driver must do next.
#[derive(Clone, Copy, Debug, PartialEq, Eq)]
pub enum SyncStep {
    /// Start a context that runs the chosen renderer to its end and then
    /// fires the completion signal, on every exit path.
    StartRenderer(RendererChoice),
    /// Start a context that runs the task.
    StartTask,
    /// Block until the task's context has ended.
    JoinTask,
    /// Take the lock, read the completion signal, release the lock.
    ReadSignal,
    /// Sleep for this many milliseconds, holding no lock.
    Sleep { millis: u64 },
    /// Join the renderer's context, which has already ended.
    JoinRenderer,
    /// Hand control back to the caller.
    Return,
    /// Raise the task's fault to the caller.
    RaiseTaskFault,
    /// Raise the renderer's fault to the caller.
    RaiseRendererFault,
}

/// What the driver reports after carrying out a step.
#[derive(Clone, Copy, Debug, PartialEq, Eq)]
pub enum SyncEvent {
    /// The context asked for has been started.
    Started,
    /// The task's context has ended.
    TaskJoined(Outcome),
    /// The completion signal was read and held this value.
    SignalRead(bool),
    /// The sleep is over.
    Slept,
    /// The renderer's context has been joined.
    RendererJoined(Outcome),
}

/// Where a run stands, with what it has learned so far.
#[derive(Clone, Copy, Debug, PartialEq, Eq)]
pub enum SyncPhase {
    /// Nothing has been started.
    StartingRenderer,
    /// The renderer runs; the task has not been started.
    StartingTask,
    /// Renderer and task run.
    JoiningTask,
    /// The task has ended; the signal is about to be read.
    Polling { task: Outcome },
    /// The task has ended; the last read found the signal unset.
    Sleeping { task: Outcome },
    /// The task has ended and the signal has been seen set.
    JoiningRenderer { task: Outcome },
    /// Both contexts have ended.
    Finished { task: Outcome, renderer: Outcome },
}

/// The state of one blocking run.
#[derive(Clone, Copy, Debug, PartialEq, Eq)]
pub struct SyncRunner {
    /// The renderer of this run.
    pub renderer: RendererChoice,
    /// How far the run has come.
    pub phase: SyncPhase,
}

/// How a run ends, given how its two contexts ended: a fault of the task is
/// raised in preference to one of the renderer.
pub open spec fn sync_verdict(task: Outcome, renderer: Outcome) -> SyncStep {
    if task is Faulted {
        SyncStep::RaiseTaskFault
    } else if renderer is Faulted {
        SyncStep::RaiseRendererFault
    } else {
        SyncStep::Return
    }
}

impl SyncStep {
    /// Whether `event` is a report of this step having been carried out.
    /// Nothing answers the three steps that end a run.
    pub open spec fn answered_by(self, event: SyncEvent) -> bool {
        match self {
            SyncStep::StartRenderer(_) | SyncStep::StartTask => event is Started,
            SyncStep::JoinTask => event is TaskJoined,
            SyncStep::ReadSignal => event is SignalRead,
            SyncStep::Sleep { .. } => event is Slept,
            SyncStep::JoinRenderer => event is RendererJoined,
            SyncStep::Return | SyncStep::RaiseTaskFault | SyncStep::RaiseRendererFault => false,
        }
    }
}

impl SyncRunner {
    /// The state before anything has been started.
    pub open spec fn initial(renderer: RendererChoice) -> SyncRunner {
        SyncRunner { renderer, phase: SyncPhase::StartingRenderer }
    }

    /// The step that the run is waiting on.
    pub open spec fn step(self) -> SyncStep {
        match self.phase {
            SyncPhase::StartingRenderer => SyncStep::StartRenderer(self.renderer),
            SyncPhase::StartingTask => SyncStep::StartTask,
            SyncPhase::JoiningTask => SyncStep::JoinTask,
            SyncPhase::Polling { .. } => SyncStep::ReadSignal,
            SyncPhase::Sleeping { .. } => SyncStep::Sleep { millis: POLL_INTERVAL_MS },
            SyncPhase::JoiningRenderer { .. } => SyncStep::JoinRenderer,
            SyncPhase::Finished { task, renderer } => sync_verdict(task, renderer),
        }
    }

    /// Whether the run is over: nothing is left but to return or to raise.
    pub open spec fn finished(self) -> bool {
        self.phase is Finished
    }

    /// The phase that follows when `event` is reported, or `None` if `event`
    /// does not answer the pending step.
    pub open spec fn next_phase(self, event: SyncEvent) -> Option<SyncPhase> {
        match (self.phase, event) {
            (SyncPhase::StartingRenderer, SyncEvent::Started) => Some(SyncPhase::StartingTask),
            (SyncPhase::StartingTask, SyncEvent::Started) => Some(SyncPhase::JoiningTask),
            (SyncPhase::JoiningTask, SyncEvent::TaskJoined(task)) => Some(
                SyncPhase::Polling { task },
            ),
            (SyncPhase::Polling { task }, SyncEvent::SignalRead(set)) => Some(
                if set {
                    SyncPhase::JoiningRenderer { task }
                } else {
                    SyncPhase::Sleeping { task }
                },
            ),
            (SyncPhase::Sleeping { task }, SyncEvent::Slept) => Some(SyncPhase::Polling { task }),
            (SyncPhase::JoiningRenderer { task }, SyncEvent::RendererJoined(renderer)) => Some(
                SyncPhase::Finished { task, renderer },
            ),
            _ => None,
        }
    }

    /// The state that follows when `event` is reported, or `None` if `event`
    /// does not answer the pending step. The renderer of a run never changes.
    pub open spec fn next(self, event: SyncEvent) -> Option<SyncRunner> {
        match self.next_phase(event) {
            Some(phase) => Some(SyncRunner { renderer: self.renderer, phase }),
            None => None,
        }
    }

    /// A run with nothing started yet. Its first step is to start `renderer`.
    pub fn new(renderer: RendererChoice) -> (runner: SyncRunner)
        ensures
            runner == SyncRunner::initial(renderer),
    {
        SyncRunner { renderer, phase: SyncPhase::StartingRenderer }
    }

    /// The step that the driver must carry out now.
    pub fn pending(&self) -> (step: SyncStep)
        ensures
            step == self.step(),
    {
        match self.phase {
            SyncPhase::StartingRenderer => SyncStep::StartRenderer(self.renderer),
            SyncPhase::StartingTask => SyncStep::StartTask,
            SyncPhase::JoiningTask => SyncStep::JoinTask,
            SyncPhase::Polling { .. } => SyncStep::ReadSignal,
            SyncPhase::Sleeping { .. } => SyncStep::Sleep { millis: POLL_INTERVAL_MS },
            SyncPhase::JoiningRenderer { .. } => SyncStep::JoinRenderer,
            SyncPhase::Finished { task: Outcome::Faulted, .. } => SyncStep::RaiseTaskFault,
            SyncPhase::Finished { renderer: Outcome::Faulted, .. } => SyncStep::RaiseRendererFault,
            SyncPhase::Finished { .. } => SyncStep::Return,
        }
    }

    /// Whether the run is over.
    pub fn is_finished(&self) -> (done: bool)
        ensures
            done == self.finished(),
    {
        match self.phase {
            SyncPhase::Finished { .. } => true,
            _ => false,
        }
    }

    /// Takes the report of the step just carried out and moves on.
    ///
    /// Returns the next step if `event` answers the pending one. Otherwise
    /// the runner is unchanged and the result is `Err`; a finished run
    /// accepts no event.
    pub fn advance(&mut self, event: SyncEvent) -> (result: Result<SyncStep, OutOfTurn>)
        ensures
            result is Ok <==> old(self).step().answered_by(event),
            match old(self).next(event) {
                Some(after) => *final(self) == after && result == Ok::<SyncStep, OutOfTurn>(
                    after.step(),
                ),
                None => *final(self) == *old(self) && result is Err,
            },
    {
        let phase = match (self.phase, event) {
            (SyncPhase::StartingRenderer, SyncEvent::Started) => SyncPhase::StartingTask,
            (SyncPhase::StartingTask, SyncEvent::Started) => SyncPhase::JoiningTask,
            (SyncPhase::JoiningTask, SyncEvent::TaskJoined(task)) => SyncPhase::Polling { task },
            (SyncPhase::Polling { task }, SyncEvent::SignalRead(true)) => {
                SyncPhase::JoiningRenderer { task }
            },
            (SyncPhase::Polling { task }, SyncEvent::SignalRead(false)) => {
                SyncPhase::Sleeping { task }
            },
            (SyncPhase::Sleeping { task }, SyncEvent::Slept) => SyncPhase::Polling { task },
            (SyncPhase::JoiningRenderer { task }, SyncEvent::RendererJoined(renderer)) => {
                SyncPhase::Finished { task, renderer }
            },
            _ => {
                return Err(OutOfTurn);
            },
        };
        self.phase = phase;
        Ok(self.pending())
    }

    /// Carries out the step [`SyncStep::ReadSignal`] on `signal` and reports
    /// what was read.
    ///
    /// If that step is pending, the run moves on as by
    /// `advance(SyncEvent::SignalRead(..))` with the value of the signal: to
    /// the join of the renderer if the signal has been fired, to a sleep if
    /// it has not. If any other step is pending, the runner is unchanged and
    /// the result is `Err`. The caller holds the lock for this call only.
    pub fn read_signal(&mut self, signal: &CompletionSignal) -> (result: Result<
        SyncStep,
        OutOfTurn,
    >)
        ensures
            result is Ok <==> old(self).step() is ReadSignal,
            result == Ok::<SyncStep, OutOfTurn>(SyncStep::JoinRenderer) <==> old(self).step()
                is ReadSignal && signal@,
            match old(self).step() {
                SyncStep::ReadSignal => Some(*final(self)) == old(self).next(
                    SyncEvent::SignalRead(signal@),
                ) && result == Ok::<SyncStep, OutOfTurn>(final(self).step()),
                _ => *final(self) == *old(self),
            },
    {
        match self.phase {
            SyncPhase::Polling { .. } => self.advance(SyncEvent::SignalRead(signal.is_fired())),
            _ => Err(OutOfTurn),
        }
    }
}

} // verus!
