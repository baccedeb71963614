use std::rc::Rc;

use cubesqlplanner::base_member::{BaseMember, BaseMemberHelper, CommonMember};
use cubesqlplanner::members::{DimensionMember, MeasureMember};
use cubesqlplanner::query_tools::QueryTools;
use cubesqlplanner::sql_evaluator::{MemberKind, MemberSymbol};

fn s(x: &str) -> String {
    x.to_string()
}

fn tools() -> QueryTools {
    QueryTools::new(vec![(s("orders"), s("orders1")), (s("customers"), s("customers2"))])
}

fn symbol(cube: &str, name: &str, kind: MemberKind) -> Rc<MemberSymbol> {
    Rc::new(MemberSymbol::new(s(cube), s(name), kind, s(name)))
}

fn mixed_members(qt: &QueryTools) -> Vec<CommonMember> {
    let measures = vec![
        Rc::new(MeasureMember::new(symbol("orders", "total", MemberKind::Measure), None, qt).unwrap()),
        Rc::new(
            MeasureMember::new(symbol("orders", "total", MemberKind::Measure), Some(s("rolling")), qt)
                .unwrap(),
        ),
    ];
    let dimensions = vec![
        Rc::new(
            DimensionMember::new(symbol("customers", "city", MemberKind::Dimension), None, qt)
                .unwrap(),
        ),
    ];
    let mut all = BaseMemberHelper::upcast_vec_to_base_member(&measures);
    all.extend(BaseMemberHelper::upcast_vec_to_base_member(&dimensions));
    all
}

#[test]
fn upcast_vec_preserves_order_and_length() {
    let qt = tools();
    let members = vec![
        Rc::new(MeasureMember::new(symbol("orders", "a", MemberKind::Measure), None, &qt).unwrap()),
        Rc::new(MeasureMember::new(symbol("orders", "b", MemberKind::Measure), None, &qt).unwrap()),
        Rc::new(MeasureMember::new(symbol("orders", "c", MemberKind::Measure), None, &qt).unwrap()),
    ];
    let common = BaseMemberHelper::upcast_vec_to_base_member(&members);
    assert_eq!(common.len(), 3);
    for (c, m) in common.iter().zip(members.iter()) {
        assert_eq!(c.alias_name(), m.alias_name());
        assert_eq!(c.full_name(), m.full_name());
    }
}

#[test]
fn to_alias_vec_preserves_order() {
    let qt = tools();
    let all = mixed_members(&qt);
    let aliases = BaseMemberHelper::to_alias_vec(&all);
    assert_eq!(
        aliases,
        vec![s("orders1_total"), s("orders1_total_rolling"), s("customers2_city")]
    );
}

#[test]
fn collected_aliases_are_distinct() {
    let qt = tools();
    let all = mixed_members(&qt);
    let aliases = BaseMemberHelper::to_alias_vec(&all);
    for i in 0..aliases.len() {
        for j in 0..aliases.len() {
            if i != j {
                assert_ne!(aliases[i], aliases[j]);
            }
        }
    }
}

#[test]
fn extract_symbols_preserves_order_and_identity() {
    let qt = tools();
    let sym_a = symbol("orders", "a", MemberKind::Measure);
    let sym_b = symbol("customers", "b", MemberKind::Dimension);
    let members = vec![
        CommonMember::new(Rc::clone(&sym_a), None, &qt).unwrap(),
        CommonMember::new(Rc::clone(&sym_b), None, &qt).unwrap(),
    ];
    let symbols = BaseMemberHelper::extract_symbols_from_members(&members);
    assert_eq!(symbols.len(), 2);
    assert!(Rc::ptr_eq(&symbols[0], &sym_a));
    assert!(Rc::ptr_eq(&symbols[1], &sym_b));
}

#[test]
fn iter_as_base_member_yields_all_in_order() {
    let qt = tools();
    let members = vec![
        Rc::new(MeasureMember::new(symbol("orders", "a", MemberKind::Measure), None, &qt).unwrap()),
        Rc::new(MeasureMember::new(symbol("orders", "b", MemberKind::Measure), None, &qt).unwrap()),
    ];
    let mut it = BaseMemberHelper::iter_as_base_member(&members);
    let first = it.next().expect("two elements");
    let second = it.next().expect("two elements");
    assert_eq!(first.alias_name(), "orders1_a");
    assert_eq!(second.alias_name(), "orders1_b");
    assert!(it.next().is_none());
    assert!(it.next().is_none());
}

#[test]
fn iter_as_base_member_is_restartable() {
    let qt = tools();
    let members = vec![
        Rc::new(MeasureMember::new(symbol("orders", "a", MemberKind::Measure), None, &qt).unwrap()),
    ];
    let mut it = BaseMemberHelper::iter_as_base_member(&members);
    assert_eq!(it.next().unwrap().alias_name(), "orders1_a");
    assert!(it.next().is_none());
    it.restart();
    assert_eq!(it.next().unwrap().alias_name(), "orders1_a");
}

#[test]
fn empty_collection_round_trip() {
    let empty: Vec<Rc<CommonMember>> = vec![];
    let common = BaseMemberHelper::upcast_vec_to_base_member(&empty);
    assert_eq!(common.len(), 0);
    assert_eq!(BaseMemberHelper::to_alias_vec(&common).len(), 0);
    assert_eq!(BaseMemberHelper::extract_symbols_from_members(&common).len(), 0);
}
