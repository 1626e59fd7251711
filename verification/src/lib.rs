//! Coordination of a decorative loading animation with a unit of work.
//!
//! A *renderer* paints the animation and a *task* does the work; both are
//! opaque callables that run concurrently. This crate holds the rules that
//! decide what a runner does next and when it may hand control back:
//!
//! - [`sync_runner`]: the blocking runner, which lets the animation play to
//!   its own end and polls a [`signal::CompletionSignal`] to learn of it;
//! - [`async_runner`]: the cooperative runner, which cancels the animation as
//!   soon as the task has settled.
//!
//! The rules are state machines. A driver carries out the step that a runner
//! names, reports what happened as an event, and repeats until the runner is
//! finished. Every transition, and every property of whole runs stated in
//! the `*_laws` modules, is proved.

pub mod async_laws;
pub mod async_runner;
pub mod outcome;
pub mod renderer;
pub mod signal;
pub mod sync_laws;
pub mod sync_runner;
