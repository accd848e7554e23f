//! The renderer: the owner of the context.

use vstd::prelude::*;
use crate::context::Context;

verus! {

/// The renderer of a context.
#[derive(Debug)]
pub struct Renderer {
    pub context: Context,
}

impl Renderer {
    /// A renderer on `context`.
    pub fn new(context: Context) -> (renderer: Renderer)
        ensures
            renderer.context == context,
    {
        Renderer { context }
    }
}

} // verus!
