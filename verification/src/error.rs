//! Errors raised while naming or rendering members.

use vstd::prelude::*;

verus! {

/// A failure during member alias computation or SQL rendering.
///
/// Both variants abort the current query's render: a partially rendered
/// statement could be semantically wrong, so no partial result is ever
/// produced.
#[derive(Debug)]
pub enum MemberError {
    /// A member references a cube that has no alias registered in the
    /// current query's join context. This indicates an upstream planning
    /// bug and is not recoverable for the current query.
    UnresolvedCubeAlias { cube_name: String },
    /// The dialect templates cannot produce a legal SQL fragment for a
    /// member's expression shape. Carries the member's fully-qualified
    /// name for diagnosis.
    SqlGeneration { member: String, detail: String },
}

impl MemberError {
    /// True when this error reports an unregistered cube.
    pub fn is_unresolved_cube_alias(&self) -> (r: bool)
        ensures
            r == (self is UnresolvedCubeAlias),
    {
        match self {
            MemberError::UnresolvedCubeAlias { .. } => true,
            MemberError::SqlGeneration { .. } => false,
        }
    }
}

} // verus!
