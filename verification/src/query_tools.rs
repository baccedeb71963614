//! The per-query shared context: which alias each cube's table or subquery
//! carries in the current query's FROM/JOIN structure.

use vstd::prelude::*;
use crate::error::MemberError;

verus! {

/// Looks up the first alias registered for `cube` in `entries`, scanning in
/// registration order.
pub open spec fn lookup_alias(entries: Seq<(String, String)>, cube: Seq<char>) -> Option<Seq<char>>
    decreases entries.len(),
{
    if entries.len() == 0 {
        Option::None
    } else if entries[0].0@ == cube {
        Option::Some(entries[0].1@)
    } else {
        lookup_alias(entries.drop_first(), cube)
    }
}

/// Per-query shared service mapping cube names to their query-scoped table
/// aliases. Fully built before rendering begins and read-only afterwards;
/// a cube may appear under a different alias in another query, so the
/// mapping is query-scoped, never global.
pub struct QueryTools {
    cube_aliases: Vec<(String, String)>,
}

impl QueryTools {
    /// The registered (cube name, cube alias) pairs, in registration order.
    pub closed spec fn entries(&self) -> Seq<(String, String)> {
        self.cube_aliases@
    }

    /// The query-scoped alias of `cube`, when the cube is registered.
    pub open spec fn cube_alias_of(&self, cube: Seq<char>) -> Option<Seq<char>> {
        lookup_alias(self.entries(), cube)
    }

    /// Builds the context from the join graph's resolved (cube, alias)
    /// pairs.
    pub fn new(cube_aliases: Vec<(String, String)>) -> (qt: QueryTools)
        ensures
            qt.entries() == cube_aliases@,
    {
        QueryTools { cube_aliases }
    }

    /// Resolves the query-scoped alias of `cube_name`, failing with
    /// [`MemberError::UnresolvedCubeAlias`] when the cube was never
    /// registered in the current join context.
    pub fn alias_for_cube(&self, cube_name: &String) -> (r: Result<String, MemberError>)
        ensures
            match r {
                Result::Ok(alias) => self.cube_alias_of(cube_name@) == Option::Some(alias@),
                Result::Err(e) => self.cube_alias_of(cube_name@) is None && match e {
                    MemberError::UnresolvedCubeAlias { cube_name: c } => c@ == cube_name@,
                    _ => false,
                },
            },
    {
        let n = self.cube_aliases.len();
        let mut i: usize = 0;
        proof {
            assert(self.entries().skip(0) =~= self.entries());
        }
        while i < n
            invariant
                n == self.entries().len(),
                i <= n,
                lookup_alias(self.entries().skip(i as int), cube_name@) == self.cube_alias_of(
                    cube_name@,
                ),
            decreases n - i,
        {
            if self.cube_aliases[i].0 == *cube_name {
                proof {
                    assert(self.entries().skip(i as int)[0] == self.entries()[i as int]);
                }
                return Result::Ok(self.cube_aliases[i].1.clone());
            }
            proof {
                assert(self.entries().skip(i as int).drop_first() =~= self.entries().skip(
                    i as int + 1,
                ));
                assert(self.entries().skip(i as int)[0] == self.entries()[i as int]);
            }
            i = i + 1;
        }
        proof {
            assert(self.entries().skip(n as int) =~= Seq::<(String, String)>::empty());
        }
        Result::Err(MemberError::UnresolvedCubeAlias { cube_name: cube_name.clone() })
    }
}

} // verus!
