//! Ambient render-time state threaded through every `to_sql` call.

use vstd::prelude::*;

verus! {

/// Render-time ambient state, passed explicitly (never global) through a
/// whole render call tree and never mutated by this crate: rendering reads
/// it at most. It carries the current subquery nesting depth of the
/// surrounding assembly logic.
pub struct VisitorContext {
    pub nesting_depth: usize,
}

impl VisitorContext {
    /// The context for a render starting at the top of a query.
    pub fn root() -> (c: VisitorContext)
        ensures
            c.nesting_depth == 0,
    {
        VisitorContext { nesting_depth: 0 }
    }

    pub fn new(nesting_depth: usize) -> (c: VisitorContext)
        ensures
            c.nesting_depth == nesting_depth,
    {
        VisitorContext { nesting_depth }
    }
}

} // verus!
