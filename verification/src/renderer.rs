//! Which renderer a run uses: the caller's own, or the built-in one.

use vstd::prelude::*;

verus! {

/// The renderer that a run starts. Exactly one renderer is active per run.
#[derive(Clone, Copy, Debug, PartialEq, Eq)]
pub enum RendererChoice {
    /// The built-in animation, used when the caller supplies none.
    Default,
    /// The renderer that the caller supplied.
    Custom,
}

impl RendererChoice {
    /// The choice that an optional custom renderer amounts to.
    pub fn of<R>(custom: &Option<R>) -> (choice: RendererChoice)
        ensures
            choice == if custom is Some {
                RendererChoice::Custom
            } else {
                RendererChoice::Default
            },
    {
        match custom {
            Some(_) => RendererChoice::Custom,
            None => RendererChoice::Default,
        }
    }
}

/// Picks the renderer to run: the custom one if there is one, else `fallback`.
pub fn resolve_renderer<R>(custom: Option<R>, fallback: R) -> (renderer: R)
    ensures
        renderer == match custom {
            Some(supplied) => supplied,
            None => fallback,
        },
{
    match custom {
        Some(supplied) => supplied,
        None => fallback,
    }
}

} // verus!
