//! The uniform member capability contract, the common member
//! representation behind it, and batch utilities over ordered member
//! collections.

use vstd::prelude::*;
use vstd::string::StringExecFns;
use std::rc::Rc;
use crate::error::MemberError;
use crate::query_tools::QueryTools;
use crate::sql_evaluator::{fq_name, MemberKind, MemberSymbol};
use crate::sql_templates::{
    lemma_member_alias_injective, member_alias_seq, renderable, rendered_sql, suffix_view,
    underscore_free, PlanSqlTemplates,
};
use crate::visitor_context::VisitorContext;

verus! {

/// Relies on std's `Rc::clone`: the clone is a new handle to the same
/// allocation, hence the same value.
#[verifier::external_body]
fn clone_symbol(symbol: &Rc<MemberSymbol>) -> (r: Rc<MemberSymbol>)
    ensures
        r == *symbol,
{
    Rc::clone(symbol)
}

/// The capability contract every concrete member kind satisfies, so the
/// surrounding query-assembly logic can treat heterogeneous member
/// collections uniformly.
///
/// A member is immutable once created, so every operation is a pure
/// function of the member's identity (cube, name, suffix), the wrapped
/// symbol, and the arguments passed in; the `ensures` clauses below pin
/// each result to those spec-level values.
pub trait BaseMember: Sized {
    /// The wrapped semantic symbol, as a spec-level value.
    spec fn symbol_spec(&self) -> MemberSymbol;

    /// The optional disambiguating alias suffix.
    spec fn suffix_spec(&self) -> Option<Seq<char>>;

    /// The query-scoped alias of the owning cube, resolved when the member
    /// was bound to its query context.
    spec fn cube_alias_spec(&self) -> Seq<char>;

    /// The member's SQL column alias.
    spec fn alias_spec(&self) -> Seq<char>;

    /// Renders this member's SQL fragment for the current dialect.
    /// Deterministic: the result is a function of the member and the
    /// dialect templates alone, and the passed contexts are never mutated.
    /// Fails exactly when the templates cannot produce a legal fragment
    /// for the wrapped symbol's expression shape.
    fn to_sql(&self, context: Rc<VisitorContext>, templates: &PlanSqlTemplates) -> (r: Result<
        String,
        MemberError,
    >)
        ensures
            match r {
                Result::Ok(sql) => renderable(self.symbol_spec()) && sql@ == rendered_sql(
                    templates.quote_seq(),
                    self.cube_alias_spec(),
                    self.symbol_spec(),
                ),
                Result::Err(e) => !renderable(self.symbol_spec()) && match e {
                    MemberError::SqlGeneration { member, detail } => member@ == fq_name(
                        self.symbol_spec().cube_name@,
                        self.symbol_spec().name@,
                    ) && detail@ == "cannot render an empty member expression"@,
                    _ => false,
                },
            },
    ;

    /// This member's SQL column alias: stable across repeated calls and,
    /// whenever the upstream selection kept member identities distinct,
    /// unique within one query render.
    fn alias_name(&self) -> (r: String)
        ensures
            r@ == self.alias_spec(),
    ;

    /// The shared semantic symbol this member wraps, for dependency-graph
    /// consumers.
    fn member_evaluator(&self) -> (r: Rc<MemberSymbol>)
        ensures
            *r == self.symbol_spec(),
    ;

    /// The fully-qualified semantic name `cube.member`, independent of
    /// rendering and aliasing concerns.
    fn full_name(&self) -> (r: String)
        ensures
            r@ == fq_name(self.symbol_spec().cube_name@, self.symbol_spec().name@),
    ;

    /// Upcasts this member to the common representation the batch
    /// utilities operate on. Transparent: every contract operation on the
    /// result returns the same value as on `self`.
    fn as_base_member(&self) -> (r: CommonMember)
        ensures
            r.symbol_of() == self.symbol_spec(),
            r.suffix_of() == self.suffix_spec(),
            r.cube_alias_of() == self.cube_alias_spec(),
            r.alias_of() == self.alias_spec(),
            r.wf(),
    ;

    /// The owning cube's name.
    fn cube_name(&self) -> (r: &String)
        ensures
            r@ == self.symbol_spec().cube_name@,
    ;

    /// The bare member name.
    fn name(&self) -> (r: &String)
        ensures
            r@ == self.symbol_spec().name@,
    ;

    /// The optional disambiguating suffix; none for members rendered only
    /// once per query.
    fn alias_suffix(&self) -> (r: Option<String>)
        ensures
            suffix_view(r) == self.suffix_spec(),
    ;
}

/// A member seen through the common capability contract: the wrapped
/// symbol, the optional suffix, the owning cube's query-scoped alias, and
/// the column alias computed from them when the member was bound.
///
/// Heterogeneous collections of members are stored as values of this type;
/// concrete kinds upcast into it element-wise.
pub struct CommonMember {
    symbol: Rc<MemberSymbol>,
    suffix: Option<String>,
    cube_alias: String,
    alias: String,
}

impl CommonMember {
    /// The wrapped symbol, as a spec-level value.
    pub closed spec fn symbol_of(&self) -> MemberSymbol {
        *self.symbol
    }

    /// The optional alias suffix.
    pub closed spec fn suffix_of(&self) -> Option<Seq<char>> {
        suffix_view(self.suffix)
    }

    /// The resolved query-scoped alias of the owning cube.
    pub closed spec fn cube_alias_of(&self) -> Seq<char> {
        self.cube_alias@
    }

    /// The member's SQL column alias.
    pub closed spec fn alias_of(&self) -> Seq<char> {
        self.alias@
    }

    /// Well-formedness: the stored column alias is exactly the canonical
    /// alias built from the resolved cube alias, the member name and the
    /// suffix. Every value of this type satisfies it.
    #[verifier::type_invariant]
    pub closed spec fn wf(&self) -> bool {
        self.alias@ == member_alias_seq(self.cube_alias@, self.symbol.name@, suffix_view(
            self.suffix,
        ))
    }

    /// The canonical alias relation, stated over the public spec values:
    /// a well-formed member's column alias is determined by its resolved
    /// cube alias, bare name and suffix.
    pub proof fn lemma_wf_alias(&self)
        requires
            self.wf(),
        ensures
            self.alias_of() == member_alias_seq(
                self.cube_alias_of(),
                self.symbol_of().name@,
                self.suffix_of(),
            ),
    {
    }

    /// True when this member was resolved against `query_tools`: it is
    /// well formed and its stored cube alias is the one registered for its
    /// cube there.
    pub open spec fn resolved_from(&self, query_tools: &QueryTools) -> bool {
        &&& self.wf()
        &&& query_tools.cube_alias_of(self.symbol_of().cube_name@) == Option::Some(
            self.cube_alias_of(),
        )
    }

    /// Binds `symbol` to the query context, resolving the owning cube's
    /// alias and computing the member's column alias. Fails exactly when
    /// the cube has no alias registered in `query_tools`.
    pub fn new(symbol: Rc<MemberSymbol>, suffix: Option<String>, query_tools: &QueryTools) -> (r:
        Result<CommonMember, MemberError>)
        ensures
            match r {
                Result::Ok(m) => {
                    &&& m.resolved_from(query_tools)
                    &&& m.symbol_of() == *symbol
                    &&& m.suffix_of() == suffix_view(suffix)
                    &&& query_tools.cube_alias_of(symbol.cube_name@) == Option::Some(
                        m.cube_alias_of(),
                    )
                },
                Result::Err(e) => query_tools.cube_alias_of(symbol.cube_name@) is None && match e {
                    MemberError::UnresolvedCubeAlias { cube_name: c } => c@ == symbol.cube_name@,
                    _ => false,
                },
            },
    {
        let cube_alias = match query_tools.alias_for_cube(&symbol.cube_name) {
            Result::Ok(a) => a,
            Result::Err(e) => {
                return Result::Err(e);
            },
        };
        let alias = PlanSqlTemplates::member_alias_name(&cube_alias, &symbol.name, &suffix);
        Result::Ok(CommonMember { symbol, suffix, cube_alias, alias })
    }
}

impl BaseMember for CommonMember {
    open spec fn symbol_spec(&self) -> MemberSymbol {
        self.symbol_of()
    }

    open spec fn suffix_spec(&self) -> Option<Seq<char>> {
        self.suffix_of()
    }

    open spec fn cube_alias_spec(&self) -> Seq<char> {
        self.cube_alias_of()
    }

    open spec fn alias_spec(&self) -> Seq<char> {
        self.alias_of()
    }

    fn to_sql(&self, context: Rc<VisitorContext>, templates: &PlanSqlTemplates) -> (r: Result<
        String,
        MemberError,
    >) {
        if self.symbol.definition.as_str().is_empty() {
            Result::Err(MemberError::SqlGeneration {
                member: self.full_name(),
                detail: String::from_str("cannot render an empty member expression"),
            })
        } else {
            match self.symbol.kind {
                MemberKind::Calculated => Result::Ok(self.symbol.definition.clone()),
                _ => Result::Ok(
                    templates.column_reference(&self.cube_alias, &self.symbol.definition),
                ),
            }
        }
    }

    fn alias_name(&self) -> (r: String) {
        self.alias.clone()
    }

    fn member_evaluator(&self) -> (r: Rc<MemberSymbol>) {
        clone_symbol(&self.symbol)
    }

    fn full_name(&self) -> (r: String) {
        proof {
            reveal_strlit(".");
        }
        let mut r = self.symbol.cube_name.clone();
        r.append(".");
        r.append(self.symbol.name.as_str());
        proof {
            assert(r@ =~= fq_name(self.symbol_spec().cube_name@, self.symbol_spec().name@));
        }
        r
    }

    fn as_base_member(&self) -> (r: CommonMember) {
        proof {
            use_type_invariant(&*self);
        }
        let suffix = match &self.suffix {
            Option::Some(s) => Option::Some(s.clone()),
            Option::None => Option::None,
        };
        CommonMember {
            symbol: clone_symbol(&self.symbol),
            suffix,
            cube_alias: self.cube_alias.clone(),
            alias: self.alias.clone(),
        }
    }

    fn cube_name(&self) -> (r: &String) {
        &self.symbol.cube_name
    }

    fn name(&self) -> (r: &String) {
        &self.symbol.name
    }

    fn alias_suffix(&self) -> (r: Option<String>) {
        match &self.suffix {
            Option::Some(s) => Option::Some(s.clone()),
            Option::None => Option::None,
        }
    }
}

/// True when `m` is the upcast of `source`: every contract operation
/// observes the same value on both.
pub open spec fn upcast_of<T: BaseMember>(m: CommonMember, source: T) -> bool {
    &&& m.symbol_of() == source.symbol_spec()
    &&& m.suffix_of() == source.suffix_spec()
    &&& m.cube_alias_of() == source.cube_alias_spec()
    &&& m.alias_of() == source.alias_spec()
}

/// Stateless batch operations over ordered member collections, for the
/// parts of the planner that manipulate a query's selected members without
/// caring about their concrete kind. Every operation preserves input order
/// (member order determines SELECT/GROUP BY column order) and mutates
/// nothing.
pub struct BaseMemberHelper {}

impl BaseMemberHelper {
    /// Projects a collection of concrete members to the common interface,
    /// element-wise and in order.
    pub fn upcast_vec_to_base_member<T: BaseMember>(vec: &Vec<Rc<T>>) -> (r: Vec<CommonMember>)
        ensures
            r@.len() == vec@.len(),
            forall|i: int| 0 <= i < vec@.len() ==> upcast_of(#[trigger] r@[i], *vec@[i]),
    {
        let mut r: Vec<CommonMember> = Vec::new();
        let n = vec.len();
        let mut i: usize = 0;
        while i < n
            invariant
                n == vec@.len(),
                i <= n,
                r@.len() == i as int,
                forall|j: int| 0 <= j < i as int ==> upcast_of(#[trigger] r@[j], *vec@[j]),
            decreases n - i,
        {
            r.push(vec[i].as_base_member());
            i = i + 1;
        }
        r
    }

    /// The same projection as a lazy, restartable sequence: nothing is
    /// materialized, and each step upcasts one element.
    pub fn iter_as_base_member<'a, T: BaseMember>(vec: &'a Vec<Rc<T>>) -> (it: BaseMemberIter<
        'a,
        T,
    >)
        ensures
            it.items_spec() == vec@,
            it.pos_spec() == 0,
    {
        BaseMemberIter { items: vec, pos: 0 }
    }

    /// Maps each member to its column alias, preserving order; used to
    /// build SELECT/GROUP BY alias lists. The caller must already have
    /// ensured the aliases are distinct (see [`lemma_alias_uniqueness`]).
    pub fn to_alias_vec(members: &Vec<CommonMember>) -> (r: Vec<String>)
        ensures
            r@.len() == members@.len(),
            forall|i: int| 0 <= i < members@.len() ==> (#[trigger] r@[i])@ == members@[
                i
            ].alias_of(),
    {
        let mut r: Vec<String> = Vec::new();
        let n = members.len();
        let mut i: usize = 0;
        while i < n
            invariant
                n == members@.len(),
                i <= n,
                r@.len() == i as int,
                forall|j: int| 0 <= j < i as int ==> (#[trigger] r@[j])@ == members@[
                    j
                ].alias_of(),
            decreases n - i,
        {
            r.push(members[i].alias_name());
            i = i + 1;
        }
        r
    }

    /// Maps each member to its underlying semantic symbol, preserving
    /// order; used by dependency analysis that reasons purely in terms of
    /// symbols.
    pub fn extract_symbols_from_members(members: &Vec<CommonMember>) -> (r: Vec<Rc<MemberSymbol>>)
        ensures
            r@.len() == members@.len(),
            forall|i: int| 0 <= i < members@.len() ==> *(#[trigger] r@[i]) == members@[
                i
            ].symbol_of(),
    {
        let mut r: Vec<Rc<MemberSymbol>> = Vec::new();
        let n = members.len();
        let mut i: usize = 0;
        while i < n
            invariant
                n == members@.len(),
                i <= n,
                r@.len() == i as int,
                forall|j: int| 0 <= j < i as int ==> *(#[trigger] r@[j]) == members@[
                    j
                ].symbol_of(),
            decreases n - i,
        {
            r.push(members[i].member_evaluator());
            i = i + 1;
        }
        r
    }

    /// The canonical default alias for a member identity: resolves the
    /// cube's query-scoped alias (a pure semantic lookup, the same for
    /// every dialect), then joins it with the member name and optional
    /// suffix (pure syntax, the same for every cube). Fails exactly when
    /// the cube was never registered in the current join context.
    pub fn default_alias(
        cube_name: &String,
        member_name: &String,
        member_suffix: &Option<String>,
        query_tools: Rc<QueryTools>,
    ) -> (r: Result<String, MemberError>)
        ensures
            match r {
                Result::Ok(alias) => match (*query_tools).cube_alias_of(cube_name@) {
                    Option::Some(ca) => alias@ == member_alias_seq(
                        ca,
                        member_name@,
                        suffix_view(*member_suffix),
                    ),
                    Option::None => false,
                },
                Result::Err(e) => (*query_tools).cube_alias_of(cube_name@) is None && match e {
                    MemberError::UnresolvedCubeAlias { cube_name: c } => c@ == cube_name@,
                    _ => false,
                },
            },
    {
        let cube_alias = match query_tools.alias_for_cube(cube_name) {
            Result::Ok(a) => a,
            Result::Err(e) => {
                return Result::Err(e);
            },
        };
        Result::Ok(PlanSqlTemplates::member_alias_name(&cube_alias, member_name, member_suffix))
    }
}

/// Alias determinism: two members built from the same identity (cube,
/// name, suffix) against the same query context carry identical column
/// aliases — reconstructing an equivalent member can never change its
/// alias, and repeated calls of `alias_name` on one instance return the
/// same string by its contract.
pub proof fn lemma_alias_determinism(a: &CommonMember, b: &CommonMember, query_tools: &QueryTools)
    requires
        a.resolved_from(query_tools),
        b.resolved_from(query_tools),
        a.symbol_of().cube_name@ == b.symbol_of().cube_name@,
        a.symbol_of().name@ == b.symbol_of().name@,
        a.suffix_of() == b.suffix_of(),
    ensures
        a.alias_of() == b.alias_of(),
{
    assert(a.cube_alias_of() == b.cube_alias_of());
}

/// True when the identity parts an alias is built from hold no joining
/// underscore, so the alias decomposes unambiguously.
pub open spec fn alias_parts_underscore_free(m: CommonMember) -> bool {
    &&& underscore_free(m.cube_alias_of())
    &&& underscore_free(m.symbol_of().name@)
    &&& (m.suffix_of() matches Option::Some(s) ==> underscore_free(s))
}

/// True when two members differ in at least one part of their
/// alias-determining identity: resolved cube alias, bare name, or suffix.
pub open spec fn distinct_alias_identity(a: CommonMember, b: CommonMember) -> bool {
    !(a.cube_alias_of() == b.cube_alias_of() && a.symbol_of().name@ == b.symbol_of().name@
        && a.suffix_of() == b.suffix_of())
}

/// Alias uniqueness: members with pairwise distinct alias identities and
/// underscore-free identity parts carry pairwise distinct column aliases
/// within one query render. The underscore-free requirement is what makes
/// the joined alias decompose unambiguously; with underscores inside a
/// part, the cube alias `a_b` with name `c` collides with the cube alias
/// `a` with name `b` and suffix `c`.
pub proof fn lemma_alias_uniqueness(members: Seq<CommonMember>)
    requires
        forall|i: int| 0 <= i < members.len() ==> (#[trigger] members[i]).wf(),
        forall|i: int|
            0 <= i < members.len() ==> alias_parts_underscore_free(#[trigger] members[i]),
        forall|i: int, j: int|
            0 <= i < members.len() && 0 <= j < members.len() && i != j ==> distinct_alias_identity(
                #[trigger] members[i],
                #[trigger] members[j],
            ),
    ensures
        forall|i: int, j: int|
            0 <= i < members.len() && 0 <= j < members.len() && i != j ==> (#[trigger] members[
                i
            ]).alias_of() != (#[trigger] members[j]).alias_of(),
{
    assert forall|i: int, j: int|
        0 <= i < members.len() && 0 <= j < members.len() && i != j implies (#[trigger] members[
        i
    ]).alias_of() != (#[trigger] members[j]).alias_of() by {
        if members[i].alias_of() == members[j].alias_of() {
            lemma_member_alias_injective(
                members[i].cube_alias_of(),
                members[i].symbol_of().name@,
                members[i].suffix_of(),
                members[j].cube_alias_of(),
                members[j].symbol_of().name@,
                members[j].suffix_of(),
            );
        }
    }
}

/// Alias uniqueness carried through `to_alias_vec`: over a member set
/// with pairwise distinct alias identities and underscore-free identity
/// parts, the collected alias list holds pairwise distinct strings.
pub proof fn lemma_collect_aliases_distinct(members: Seq<CommonMember>, aliases: Seq<String>)
    requires
        aliases.len() == members.len(),
        forall|i: int| 0 <= i < members.len() ==> (#[trigger] aliases[i])@ == members[i].alias_of(),
        forall|i: int| 0 <= i < members.len() ==> (#[trigger] members[i]).wf(),
        forall|i: int|
            0 <= i < members.len() ==> alias_parts_underscore_free(#[trigger] members[i]),
        forall|i: int, j: int|
            0 <= i < members.len() && 0 <= j < members.len() && i != j ==> distinct_alias_identity(
                #[trigger] members[i],
                #[trigger] members[j],
            ),
    ensures
        forall|i: int, j: int|
            0 <= i < aliases.len() && 0 <= j < aliases.len() && i != j ==> (#[trigger] aliases[
                i
            ])@ != (#[trigger] aliases[j])@,
{
    lemma_alias_uniqueness(members);
}

/// A lazy, restartable projection of a member collection to the common
/// interface: yields the upcast of each element in input order.
pub struct BaseMemberIter<'a, T: BaseMember> {
    items: &'a Vec<Rc<T>>,
    pos: usize,
}

impl<'a, T: BaseMember> BaseMemberIter<'a, T> {
    /// The underlying collection.
    pub closed spec fn items_spec(&self) -> Seq<Rc<T>> {
        self.items@
    }

    /// How many elements have been yielded so far.
    pub closed spec fn pos_spec(&self) -> int {
        self.pos as int
    }

    /// Yields the upcast of the next element, or `None` once every
    /// element was yielded.
    pub fn next(&mut self) -> (r: Option<CommonMember>)
        ensures
            final(self).items_spec() == old(self).items_spec(),
            if old(self).pos_spec() < old(self).items_spec().len() {
                &&& final(self).pos_spec() == old(self).pos_spec() + 1
                &&& match r {
                    Option::Some(m) => upcast_of(m, *old(self).items_spec()[old(self).pos_spec()]),
                    Option::None => false,
                }
            } else {
                &&& final(self).pos_spec() == old(self).pos_spec()
                &&& r is None
            },
    {
        if self.pos < self.items.len() {
            let m = self.items[self.pos].as_base_member();
            self.pos = self.pos + 1;
            Option::Some(m)
        } else {
            Option::None
        }
    }

    /// Rewinds the projection to the first element.
    pub fn restart(&mut self)
        ensures
            final(self).items_spec() == old(self).items_spec(),
            final(self).pos_spec() == 0,
    {
        self.pos = 0;
    }
}

} // verus!
