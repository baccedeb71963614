use std::rc::Rc;

use cubesqlplanner::base_member::{BaseMember, CommonMember};
use cubesqlplanner::error::MemberError;
use cubesqlplanner::members::{DimensionMember, MeasureMember};
use cubesqlplanner::query_tools::QueryTools;
use cubesqlplanner::sql_evaluator::{MemberKind, MemberSymbol};
use cubesqlplanner::sql_templates::PlanSqlTemplates;
use cubesqlplanner::visitor_context::VisitorContext;

fn s(x: &str) -> String {
    x.to_string()
}

fn tools() -> QueryTools {
    QueryTools::new(vec![(s("orders"), s("orders_1")), (s("customers"), s("customers_2"))])
}

fn measure_symbol() -> Rc<MemberSymbol> {
    Rc::new(MemberSymbol::new(s("orders"), s("total_amount"), MemberKind::Measure, s("amount")))
}

fn dimension_symbol() -> Rc<MemberSymbol> {
    Rc::new(MemberSymbol::new(s("customers"), s("city"), MemberKind::Dimension, s("city")))
}

#[test]
fn measure_member_contract_operations() {
    let qt = tools();
    let m = MeasureMember::new(measure_symbol(), None, &qt).unwrap();
    assert_eq!(m.alias_name(), "orders_1_total_amount");
    assert_eq!(m.full_name(), "orders.total_amount");
    assert_eq!(m.cube_name(), "orders");
    assert_eq!(m.name(), "total_amount");
    assert_eq!(m.alias_suffix(), None);
}

#[test]
fn suffixed_member_gets_distinct_alias() {
    let qt = tools();
    let plain = MeasureMember::new(measure_symbol(), None, &qt).unwrap();
    let rolling = MeasureMember::new(measure_symbol(), Some(s("rolling")), &qt).unwrap();
    assert_eq!(rolling.alias_name(), "orders_1_total_amount_rolling");
    assert_eq!(rolling.alias_suffix(), Some(s("rolling")));
    assert_ne!(plain.alias_name(), rolling.alias_name());
}

#[test]
fn alias_name_is_stable_across_calls() {
    let qt = tools();
    let m = MeasureMember::new(measure_symbol(), None, &qt).unwrap();
    assert_eq!(m.alias_name(), m.alias_name());
}

#[test]
fn equivalent_members_share_alias() {
    let qt = tools();
    let a = MeasureMember::new(measure_symbol(), Some(s("rolling")), &qt).unwrap();
    let b = MeasureMember::new(measure_symbol(), Some(s("rolling")), &qt).unwrap();
    assert_eq!(a.alias_name(), b.alias_name());
}

#[test]
fn member_construction_fails_on_unregistered_cube() {
    let qt = tools();
    let stray =
        Rc::new(MemberSymbol::new(s("ghost"), s("x"), MemberKind::Dimension, s("x")));
    match DimensionMember::new(stray, None, &qt) {
        Err(MemberError::UnresolvedCubeAlias { cube_name }) => assert_eq!(cube_name, "ghost"),
        Err(_) => panic!("wrong error kind"),
        Ok(_) => panic!("an unregistered cube cannot bind a member"),
    }
}

#[test]
fn member_evaluator_returns_the_shared_symbol() {
    let qt = tools();
    let symbol = measure_symbol();
    let m = MeasureMember::new(Rc::clone(&symbol), None, &qt).unwrap();
    let extracted = m.member_evaluator();
    assert!(Rc::ptr_eq(&symbol, &extracted));
}

#[test]
fn upcast_transparency() {
    let qt = tools();
    let concrete = MeasureMember::new(measure_symbol(), Some(s("rolling")), &qt).unwrap();
    let common = concrete.as_base_member();
    assert_eq!(common.alias_name(), concrete.alias_name());
    assert_eq!(common.full_name(), concrete.full_name());
    assert_eq!(common.cube_name(), concrete.cube_name());
    assert_eq!(common.name(), concrete.name());
    assert_eq!(common.alias_suffix(), concrete.alias_suffix());
    assert!(Rc::ptr_eq(&common.member_evaluator(), &concrete.member_evaluator()));
}

#[test]
fn to_sql_renders_quoted_column_reference() {
    let qt = tools();
    let templates = PlanSqlTemplates::new(s("\""));
    let m = MeasureMember::new(measure_symbol(), None, &qt).unwrap();
    let sql = m.to_sql(Rc::new(VisitorContext::root()), &templates).unwrap();
    assert_eq!(sql, "\"orders_1\".\"amount\"");
}

#[test]
fn to_sql_renders_calculated_expression_verbatim() {
    let qt = tools();
    let templates = PlanSqlTemplates::new(s("\""));
    let symbol = Rc::new(MemberSymbol::new(
        s("orders"),
        s("margin"),
        MemberKind::Calculated,
        s("revenue - cost"),
    ));
    let m = CommonMember::new(symbol, None, &qt).unwrap();
    let sql = m.to_sql(Rc::new(VisitorContext::root()), &templates).unwrap();
    assert_eq!(sql, "revenue - cost");
}

#[test]
fn to_sql_fails_on_empty_expression() {
    let qt = tools();
    let templates = PlanSqlTemplates::new(s("\""));
    let symbol =
        Rc::new(MemberSymbol::new(s("orders"), s("broken"), MemberKind::Measure, s("")));
    let m = CommonMember::new(symbol, None, &qt).unwrap();
    match m.to_sql(Rc::new(VisitorContext::root()), &templates) {
        Err(MemberError::SqlGeneration { member, detail }) => {
            assert_eq!(member, "orders.broken");
            assert_eq!(detail, "cannot render an empty member expression");
        }
        Err(_) => panic!("wrong error kind"),
        Ok(_) => panic!("an empty expression has no rendering"),
    }
}

#[test]
fn to_sql_is_deterministic() {
    let qt = tools();
    let templates = PlanSqlTemplates::new(s("`"));
    let m = DimensionMember::new(dimension_symbol(), None, &qt).unwrap();
    let a = m.to_sql(Rc::new(VisitorContext::root()), &templates).unwrap();
    let b = m.to_sql(Rc::new(VisitorContext::new(3)), &templates).unwrap();
    assert_eq!(a, "`customers_2`.`city`");
    assert_eq!(a, b);
}

#[test]
fn common_member_can_wrap_time_dimension() {
    let qt = tools();
    let symbol = Rc::new(MemberSymbol::new(
        s("orders"),
        s("created_at"),
        MemberKind::TimeDimension,
        s("created_at"),
    ));
    let m = CommonMember::new(symbol, Some(s("day")), &qt).unwrap();
    assert_eq!(m.alias_name(), "orders_1_created_at_day");
    assert_eq!(m.full_name(), "orders.created_at");
}
