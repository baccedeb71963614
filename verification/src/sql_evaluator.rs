//! Member symbols: the resolved semantic facts behind query members.

use vstd::prelude::*;

verus! {

/// The kind of semantic fact a symbol stands for.
#[derive(Clone, Copy, Debug, PartialEq, Eq, Structural)]
pub enum MemberKind {
    Measure,
    Dimension,
    TimeDimension,
    Calculated,
}

/// A resolved semantic fact: which cube owns the member, what it is called,
/// and how its value is computed. Produced by an earlier binding pass and
/// immutable afterwards; one symbol may back several member instances in
/// the same query.
pub struct MemberSymbol {
    pub cube_name: String,
    pub name: String,
    pub kind: MemberKind,
    /// The expression descriptor: the owning column for measures,
    /// dimensions and time dimensions, or a full SQL expression for
    /// calculated members.
    pub definition: String,
}

/// The fully-qualified semantic name `cube.member`.
pub open spec fn fq_name(cube: Seq<char>, name: Seq<char>) -> Seq<char> {
    cube + seq!['.'] + name
}

impl MemberSymbol {
    pub fn new(cube_name: String, name: String, kind: MemberKind, definition: String) -> (s:
        MemberSymbol)
        ensures
            s.cube_name == cube_name,
            s.name == name,
            s.kind == kind,
            s.definition == definition,
    {
        MemberSymbol { cube_name, name, kind, definition }
    }
}

} // verus!
