//! Dialect-specific identifier construction: how a cube alias, a member
//! name and an optional suffix combine into one legal column alias, and how
//! column references are quoted.

use vstd::prelude::*;
use vstd::string::StringExecFns;
use crate::sql_evaluator::{MemberKind, MemberSymbol};

verus! {

/// The view of an optional suffix string.
pub open spec fn suffix_view(s: Option<String>) -> Option<Seq<char>> {
    match s {
        Option::Some(x) => Option::Some(x@),
        Option::None => Option::None,
    }
}

/// The canonical column alias for a member: the cube's query-scoped alias
/// and the member name joined with an underscore, with the optional
/// disambiguating suffix appended the same way.
pub open spec fn member_alias_seq(
    cube_alias: Seq<char>,
    name: Seq<char>,
    suffix: Option<Seq<char>>,
) -> Seq<char> {
    let base = cube_alias + seq!['_'] + name;
    match suffix {
        Option::Some(s) => base + seq!['_'] + s,
        Option::None => base,
    }
}

/// A quoted identifier: the quote token on both sides of the name.
pub open spec fn quoted_seq(quote: Seq<char>, ident: Seq<char>) -> Seq<char> {
    quote + ident + quote
}

/// A qualified column reference: `cube_alias.column`, both parts quoted.
pub open spec fn column_reference_seq(
    quote: Seq<char>,
    cube_alias: Seq<char>,
    column: Seq<char>,
) -> Seq<char> {
    quoted_seq(quote, cube_alias) + seq!['.'] + quoted_seq(quote, column)
}

/// True when the templates can produce a legal fragment for the symbol's
/// expression shape: an empty expression descriptor has no rendering.
pub open spec fn renderable(symbol: MemberSymbol) -> bool {
    symbol.definition@.len() > 0
}

/// The SQL fragment a member renders to: calculated members carry a full
/// expression and render verbatim; every other kind renders as a quoted
/// column reference under the cube's query-scoped alias.
pub open spec fn rendered_sql(quote: Seq<char>, cube_alias: Seq<char>, symbol: MemberSymbol) -> Seq<
    char,
> {
    match symbol.kind {
        MemberKind::Calculated => symbol.definition@,
        _ => column_reference_seq(quote, cube_alias, symbol.definition@),
    }
}

/// True when no character of `s` is the underscore used to join alias
/// parts.
pub open spec fn underscore_free(s: Seq<char>) -> bool {
    forall|i: int| 0 <= i < s.len() ==> s[i] != '_'
}

/// In `a + '_' + b` with `a` and `b` underscore-free, the joining
/// underscore is the only one.
proof fn lemma_single_underscore(a: Seq<char>, b: Seq<char>)
    requires
        underscore_free(a),
        underscore_free(b),
    ensures
        (a + seq!['_'] + b).len() == a.len() + 1 + b.len(),
        (a + seq!['_'] + b)[a.len() as int] == '_',
        forall|i: int|
            0 <= i < (a + seq!['_'] + b).len() && i != a.len() ==> (a + seq!['_'] + b)[i] != '_',
{
    let s = a + seq!['_'] + b;
    assert forall|i: int| 0 <= i < s.len() && i != a.len() implies s[i] != '_' by {
        if i < a.len() {
            assert(s[i] == a[i]);
        } else {
            assert(s[i] == b[i - a.len() - 1]);
        }
    }
}

/// Joining with an underscore is injective when both joined parts are
/// underscore-free: equal results come only from equal parts.
proof fn lemma_underscore_join_injective(a1: Seq<char>, b1: Seq<char>, a2: Seq<char>, b2: Seq<char>)
    requires
        underscore_free(a1),
        underscore_free(b1),
        underscore_free(a2),
        underscore_free(b2),
        a1 + seq!['_'] + b1 == a2 + seq!['_'] + b2,
    ensures
        a1 == a2,
        b1 == b2,
{
    let s = a1 + seq!['_'] + b1;
    lemma_single_underscore(a1, b1);
    lemma_single_underscore(a2, b2);
    assert((a2 + seq!['_'] + b2)[a2.len() as int] == '_');
    assert(a1.len() == a2.len());
    assert(a1 =~= a2) by {
        assert forall|i: int| 0 <= i < a1.len() implies a1[i] == a2[i] by {
            assert(s[i] == a1[i]);
            assert((a2 + seq!['_'] + b2)[i] == a2[i]);
        }
    }
    assert(b1 =~= b2) by {
        assert forall|i: int| 0 <= i < b1.len() implies b1[i] == b2[i] by {
            assert(s[a1.len() + 1 + i] == b1[i]);
            assert((a2 + seq!['_'] + b2)[a2.len() + 1 + i] == b2[i]);
        }
    }
}

/// The canonical alias construction is injective on identities whose
/// parts are underscore-free: two members can share a column alias only
/// by sharing cube alias, name and suffix. Underscores inside a part
/// defeat this: the cube alias `a_b` with name `c` and no suffix collides
/// with cube alias `a`, name `b` and suffix `c`.
pub proof fn lemma_member_alias_injective(
    cube_alias1: Seq<char>,
    name1: Seq<char>,
    suffix1: Option<Seq<char>>,
    cube_alias2: Seq<char>,
    name2: Seq<char>,
    suffix2: Option<Seq<char>>,
)
    requires
        underscore_free(cube_alias1),
        underscore_free(name1),
        (suffix1 matches Option::Some(s) ==> underscore_free(s)),
        underscore_free(cube_alias2),
        underscore_free(name2),
        (suffix2 matches Option::Some(s) ==> underscore_free(s)),
        member_alias_seq(cube_alias1, name1, suffix1) == member_alias_seq(
            cube_alias2,
            name2,
            suffix2,
        ),
    ensures
        cube_alias1 == cube_alias2,
        name1 == name2,
        suffix1 == suffix2,
{
    match (suffix1, suffix2) {
        (Option::None, Option::None) => {
            lemma_underscore_join_injective(cube_alias1, name1, cube_alias2, name2);
        },
        (Option::Some(s1), Option::Some(s2)) => {
            let base1 = cube_alias1 + seq!['_'] + name1;
            let base2 = cube_alias2 + seq!['_'] + name2;
            lemma_single_underscore(cube_alias1, name1);
            lemma_single_underscore(cube_alias2, name2);
            let whole = base1 + seq!['_'] + s1;
            assert(whole == base2 + seq!['_'] + s2);
            assert(whole[base1.len() as int] == '_');
            assert((base2 + seq!['_'] + s2)[base2.len() as int] == '_');
            // The last underscore stands at the same offset on both sides:
            // past it both tails are underscore-free.
            assert(base1.len() == base2.len()) by {
                if base1.len() < base2.len() {
                    assert((base2 + seq!['_'] + s2)[base1.len() as int] == base2[base1.len() as int]);
                    assert(whole[base1.len() as int] == '_');
                    if base1.len() != cube_alias2.len() {
                        assert(base2[base1.len() as int] != '_');
                    } else {
                        // base1 ends where cube_alias2 does: compare the
                        // underscore counts after that point.
                        assert(whole[base2.len() as int] == '_');
                        assert(whole[base2.len() as int] == s1[base2.len() - base1.len() - 1]);
                    }
                } else if base2.len() < base1.len() {
                    assert((base1 + seq!['_'] + s1)[base2.len() as int] == base1[base2.len() as int]);
                    if base2.len() != cube_alias1.len() {
                        assert(base1[base2.len() as int] != '_');
                    } else {
                        assert(whole[base1.len() as int] == '_');
                        assert(whole[base1.len() as int] == s2[base1.len() - base2.len() - 1]);
                    }
                }
            }
            assert(base1 =~= base2) by {
                assert forall|i: int| 0 <= i < base1.len() implies base1[i] == base2[i] by {
                    assert(whole[i] == base1[i]);
                    assert((base2 + seq!['_'] + s2)[i] == base2[i]);
                }
            }
            assert(s1 =~= s2) by {
                assert forall|i: int| 0 <= i < s1.len() implies s1[i] == s2[i] by {
                    assert(whole[base1.len() + 1 + i] == s1[i]);
                    assert((base2 + seq!['_'] + s2)[base2.len() + 1 + i] == s2[i]);
                }
            }
            lemma_underscore_join_injective(cube_alias1, name1, cube_alias2, name2);
        },
        (Option::None, Option::Some(s2)) => {
            let whole = cube_alias1 + seq!['_'] + name1;
            let base2 = cube_alias2 + seq!['_'] + name2;
            lemma_single_underscore(cube_alias1, name1);
            lemma_single_underscore(cube_alias2, name2);
            // The suffixed form holds two underscores, the plain form one.
            assert((base2 + seq!['_'] + s2)[cube_alias2.len() as int] == base2[cube_alias2.len() as int]);
            assert(whole[cube_alias2.len() as int] == '_');
            assert(whole[base2.len() as int] == '_');
            assert(cube_alias2.len() == cube_alias1.len());
            assert(base2.len() == cube_alias1.len());
            assert(false);
        },
        (Option::Some(s1), Option::None) => {
            let whole = cube_alias2 + seq!['_'] + name2;
            let base1 = cube_alias1 + seq!['_'] + name1;
            lemma_single_underscore(cube_alias2, name2);
            lemma_single_underscore(cube_alias1, name1);
            assert((base1 + seq!['_'] + s1)[cube_alias1.len() as int] == base1[cube_alias1.len() as int]);
            assert(whole[cube_alias1.len() as int] == '_');
            assert(whole[base1.len() as int] == '_');
            assert(cube_alias1.len() == cube_alias2.len());
            assert(base1.len() == cube_alias2.len());
            assert(false);
        },
    }
}

/// Per-dialect SQL syntax rules. Stateless once built: one instance serves
/// a whole query render.
pub struct PlanSqlTemplates {
    quote: String,
}

impl PlanSqlTemplates {
    /// The identifier quote token of this dialect.
    pub closed spec fn quote_seq(&self) -> Seq<char> {
        self.quote@
    }

    pub fn new(quote: String) -> (t: PlanSqlTemplates)
        ensures
            t.quote_seq() == quote@,
    {
        PlanSqlTemplates { quote }
    }

    /// Joins a resolved cube alias, a bare member name and an optional
    /// suffix into a single column alias. Pure syntax: the same rule for
    /// every cube; total on well-formed inputs.
    pub fn member_alias_name(cube_alias: &String, member_name: &String, member_suffix: &Option<
        String,
    >) -> (r: String)
        ensures
            r@ == member_alias_seq(cube_alias@, member_name@, suffix_view(*member_suffix)),
    {
        proof {
            reveal_strlit("_");
        }
        let mut r = cube_alias.clone();
        r.append("_");
        r.append(member_name.as_str());
        match member_suffix {
            Option::Some(s) => {
                r.append("_");
                r.append(s.as_str());
                assert(r@ =~= member_alias_seq(
                    cube_alias@,
                    member_name@,
                    suffix_view(*member_suffix),
                ));
            },
            Option::None => {
                assert(r@ =~= member_alias_seq(
                    cube_alias@,
                    member_name@,
                    suffix_view(*member_suffix),
                ));
            },
        }
        r
    }

    /// A quoted column reference `cube_alias.column` in this dialect.
    pub fn column_reference(&self, cube_alias: &String, column: &String) -> (r: String)
        ensures
            r@ == column_reference_seq(self.quote_seq(), cube_alias@, column@),
    {
        proof {
            reveal_strlit(".");
        }
        let mut r = self.quote.clone();
        r.append(cube_alias.as_str());
        r.append(self.quote.as_str());
        r.append(".");
        r.append(self.quote.as_str());
        r.append(column.as_str());
        r.append(self.quote.as_str());
        assert(r@ =~= column_reference_seq(self.quote_seq(), cube_alias@, column@));
        r
    }
}

} // verus!
