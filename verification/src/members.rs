//! Concrete member kinds. Each wraps the common member representation and
//! satisfies the capability contract by delegation, so batch utilities and
//! query assembly never need to know which kind they hold.

use vstd::prelude::*;
use std::rc::Rc;
use crate::base_member::{BaseMember, CommonMember};
use crate::error::MemberError;
use crate::query_tools::QueryTools;
use crate::sql_evaluator::{MemberKind, MemberSymbol};
use crate::sql_templates::{suffix_view, PlanSqlTemplates};
use crate::visitor_context::VisitorContext;

verus! {

/// A measure selected into a query, bound to its cube occurrence. The same
/// measure symbol may appear again under a different suffix (for example a
/// rolling-window variant of the same fact).
pub struct MeasureMember {
    base: CommonMember,
}

impl MeasureMember {
    /// The member as seen through the common interface.
    pub closed spec fn base_of(&self) -> CommonMember {
        self.base
    }

    /// Binds a measure symbol to the query context. Fails exactly when
    /// the owning cube has no alias registered there.
    pub fn new(symbol: Rc<MemberSymbol>, suffix: Option<String>, query_tools: &QueryTools) -> (r:
        Result<MeasureMember, MemberError>)
        requires
            symbol.kind == MemberKind::Measure,
        ensures
            match r {
                Result::Ok(m) => {
                    &&& m.base_of().resolved_from(query_tools)
                    &&& m.symbol_spec() == *symbol
                    &&& m.suffix_spec() == suffix_view(suffix)
                    &&& query_tools.cube_alias_of(symbol.cube_name@) == Option::Some(
                        m.cube_alias_spec(),
                    )
                },
                Result::Err(e) => query_tools.cube_alias_of(symbol.cube_name@) is None && match e {
                    MemberError::UnresolvedCubeAlias { cube_name: c } => c@ == symbol.cube_name@,
                    _ => false,
                },
            },
    {
        match CommonMember::new(symbol, suffix, query_tools) {
            Result::Ok(base) => Result::Ok(MeasureMember { base }),
            Result::Err(e) => Result::Err(e),
        }
    }
}

impl BaseMember for MeasureMember {
    open spec fn symbol_spec(&self) -> MemberSymbol {
        self.base_of().symbol_of()
    }

    open spec fn suffix_spec(&self) -> Option<Seq<char>> {
        self.base_of().suffix_of()
    }

    open spec fn cube_alias_spec(&self) -> Seq<char> {
        self.base_of().cube_alias_of()
    }

    open spec fn alias_spec(&self) -> Seq<char> {
        self.base_of().alias_of()
    }

    fn to_sql(&self, context: Rc<VisitorContext>, templates: &PlanSqlTemplates) -> (r: Result<
        String,
        MemberError,
    >) {
        self.base.to_sql(context, templates)
    }

    fn alias_name(&self) -> (r: String) {
        self.base.alias_name()
    }

    fn member_evaluator(&self) -> (r: Rc<MemberSymbol>) {
        self.base.member_evaluator()
    }

    fn full_name(&self) -> (r: String) {
        self.base.full_name()
    }

    fn as_base_member(&self) -> (r: CommonMember) {
        self.base.as_base_member()
    }

    fn cube_name(&self) -> (r: &String) {
        self.base.cube_name()
    }

    fn name(&self) -> (r: &String) {
        self.base.name()
    }

    fn alias_suffix(&self) -> (r: Option<String>) {
        self.base.alias_suffix()
    }
}

/// A dimension selected into a query, bound to its cube occurrence.
pub struct DimensionMember {
    base: CommonMember,
}

impl DimensionMember {
    /// The member as seen through the common interface.
    pub closed spec fn base_of(&self) -> CommonMember {
        self.base
    }

    /// Binds a dimension symbol to the query context. Fails exactly when
    /// the owning cube has no alias registered there.
    pub fn new(symbol: Rc<MemberSymbol>, suffix: Option<String>, query_tools: &QueryTools) -> (r:
        Result<DimensionMember, MemberError>)
        requires
            symbol.kind == MemberKind::Dimension,
        ensures
            match r {
                Result::Ok(m) => {
                    &&& m.base_of().resolved_from(query_tools)
                    &&& m.symbol_spec() == *symbol
                    &&& m.suffix_spec() == suffix_view(suffix)
                    &&& query_tools.cube_alias_of(symbol.cube_name@) == Option::Some(
                        m.cube_alias_spec(),
                    )
                },
                Result::Err(e) => query_tools.cube_alias_of(symbol.cube_name@) is None && match e {
                    MemberError::UnresolvedCubeAlias { cube_name: c } => c@ == symbol.cube_name@,
                    _ => false,
                },
            },
    {
        match CommonMember::new(symbol, suffix, query_tools) {
            Result::Ok(base) => Result::Ok(DimensionMember { base }),
            Result::Err(e) => Result::Err(e),
        }
    }
}

impl BaseMember for DimensionMember {
    open spec fn symbol_spec(&self) -> MemberSymbol {
        self.base_of().symbol_of()
    }

    open spec fn suffix_spec(&self) -> Option<Seq<char>> {
        self.base_of().suffix_of()
    }

    open spec fn cube_alias_spec(&self) -> Seq<char> {
        self.base_of().cube_alias_of()
    }

    open spec fn alias_spec(&self) -> Seq<char> {
        self.base_of().alias_of()
    }

    fn to_sql(&self, context: Rc<VisitorContext>, templates: &PlanSqlTemplates) -> (r: Result<
        String,
        MemberError,
    >) {
        self.base.to_sql(context, templates)
    }

    fn alias_name(&self) -> (r: String) {
        self.base.alias_name()
    }

    fn member_evaluator(&self) -> (r: Rc<MemberSymbol>) {
        self.base.member_evaluator()
    }

    fn full_name(&self) -> (r: String) {
        self.base.full_name()
    }

    fn as_base_member(&self) -> (r: CommonMember) {
        self.base.as_base_member()
    }

    fn cube_name(&self) -> (r: &String) {
        self.base.cube_name()
    }

    fn name(&self) -> (r: &String) {
        self.base.name()
    }

    fn alias_suffix(&self) -> (r: Option<String>) {
        self.base.alias_suffix()
    }
}

} // verus!
