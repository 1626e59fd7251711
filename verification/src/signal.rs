//! The one-shot flag by which a renderer's execution context tells the
//! blocking runner that the renderer has returned.

use vstd::prelude::*;

verus! {

/// A completion flag that starts unset, can be set, and can never be reset.
///
/// The flag is meant to be shared behind a lock: the renderer's context calls
/// [`CompletionSignal::fire`] once, right after the renderer returns, and the
/// runner reads it with [`CompletionSignal::is_fired`]. There is no operation
/// that clears it, so a reader that has seen it set will always see it set.
#[derive(Debug)]
pub struct CompletionSignal {
    fired: bool,
}

impl View for CompletionSignal {
    type V = bool;

    /// `true` once the signal has been fired.
    closed spec fn view(&self) -> bool {
        self.fired
    }
}

impl CompletionSignal {
    /// A fresh signal, not yet fired.
    pub fn new() -> (signal: Self)
        ensures
            !signal@,
    {
        CompletionSignal { fired: false }
    }

    /// Sets the signal. Firing a signal that is already set leaves it set.
    pub fn fire(&mut self)
        ensures
            final(self)@,
    {
        self.fired = true;
    }

    /// Whether the signal has been fired.
    pub fn is_fired(&self) -> (fired: bool)
        ensures
            fired == self@,
    {
        self.fired
    }
}

} // verus!
