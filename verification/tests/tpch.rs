use std::collections::HashMap;

use optd_cost_model::common::predicates::constant_pred::ConstantType;
use optd_cost_model::common::properties::attr_ref::{AttrRef, BaseTableAttrRef, SemanticCorrelation};
use optd_cost_model::tpch::q6::{create_tpch_q6_memo, init_tpch_q6};
use optd_cost_model::tpch::q7::create_tpch_q7_memo;
use optd_cost_model::tpch::q8::create_tpch_q8_memo;
use optd_cost_model::tpch::q9::create_tpch_q9_memo;
use optd_cost_model::tpch::MemoGroupInfo;

fn attr(table: &str, attr_idx: usize) -> BaseTableAttrRef {
    BaseTableAttrRef {
        table: table.to_string(),
        attr_idx,
    }
}

fn group(memo: &HashMap<u64, MemoGroupInfo>, id: u64) -> &MemoGroupInfo {
    memo.get(&id).unwrap()
}

fn correlation(info: &MemoGroupInfo) -> SemanticCorrelation {
    info.attr_refs.output_correlation().unwrap().clone()
}

#[test]
fn test_q6_memo_groups() {
    let memo = create_tpch_q6_memo();
    let mut ids: Vec<u64> = memo.keys().copied().collect();
    ids.sort();
    assert_eq!(ids, vec![2, 15, 18]);

    let agg = group(&memo, 15);
    assert_eq!(agg.schema.attributes.len(), 1);
    assert_eq!(agg.schema.attributes[0].name, "unnamed");
    assert_eq!(agg.schema.attributes[0].typ, ConstantType::Binary);
    assert!(agg.schema.attributes[0].nullable);
    assert!(matches!(agg.attr_refs.base_table_attribute_refs()[..], [AttrRef::Derived]));
    assert!(agg.attr_refs.output_correlation().is_none());

    for id in [18, 2] {
        let g = group(&memo, id);
        assert_eq!(g.schema.attributes.len(), 16);
        assert_eq!(g.schema.attributes[0].name, "l_orderkey");
        assert_eq!(g.schema.attributes[10].name, "l_shipdate");
        assert_eq!(g.schema.attributes[10].typ, ConstantType::Date);
        assert_eq!(g.schema.attributes[15].name, "l_comment");
        let refs = g.attr_refs.base_table_attribute_refs();
        assert_eq!(refs.len(), 15);
        for (i, r) in refs.iter().enumerate() {
            match r {
                AttrRef::BaseTableAttrRef(a) => assert_eq!(*a, attr("lineitem", i)),
                AttrRef::Derived => panic!("a scan of lineitem refers to lineitem"),
            }
        }
        assert!(g.attr_refs.output_correlation().is_none());
    }
}

#[test]
fn test_q7_memo_groups() {
    let memo = create_tpch_q7_memo();
    assert_eq!(memo.len(), 20);

    let supplier = group(&memo, 2);
    assert_eq!(supplier.schema.attributes.len(), 7);
    assert_eq!(supplier.schema.attributes[5].name, "s_acctbal");
    assert_eq!(supplier.schema.attributes[5].typ, ConstantType::Decimal);

    let join = group(&memo, 118);
    assert_eq!(join.schema.attributes.len(), 23);
    let mut c = correlation(join);
    assert!(c.is_eq(&attr("supplier", 0), &attr("lineitem", 2)));
    assert!(!c.is_eq(&attr("supplier", 0), &attr("lineitem", 0)));
    assert_eq!(c.num_eq_attributes(&attr("lineitem", 2)), 2);

    let top = group(&memo, 12177);
    assert_eq!(top.schema.attributes.len(), 38);
    let mut c = correlation(top);
    assert_eq!(c.find_predicates_for_eq_attr_set(&attr("supplier", 0)).len(), 1);
}

#[test]
fn test_q8_memo_groups() {
    let memo = create_tpch_q8_memo();
    assert_eq!(memo.len(), 27);
    let g = group(&memo, 12953);
    assert_eq!(g.schema.attributes.len(), 42);
    assert_eq!(g.attr_refs.base_table_attribute_refs().len(), 42);
    let last = group(&memo, 112);
    assert_eq!(last.schema.attributes.len(), 1);
    assert!(matches!(
        last.attr_refs.base_table_attribute_refs()[..],
        [AttrRef::Derived, AttrRef::Derived]
    ));
    assert!(g.attr_refs.output_correlation().is_some());
}

#[test]
fn test_q9_memo_groups() {
    let memo = create_tpch_q9_memo();
    assert_eq!(memo.len(), 19);
    let g = group(&memo, 139);
    assert_eq!(g.schema.attributes.len(), 25);
    assert!(g.attr_refs.output_correlation().is_some());
    assert!(group(&memo, 2).attr_refs.output_correlation().is_none());
}

#[test]
fn test_cloned_correlation_answers_the_same() {
    let mut fresh = SemanticCorrelation::new().clone();
    assert!(!fresh.is_eq(&attr("t1", 0), &attr("t2", 0)));
    let memo = create_tpch_q7_memo();
    let original = group(&memo, 67).attr_refs.output_correlation().unwrap();
    let mut copy = original.clone();
    let mut again = copy.clone();
    assert_eq!(copy.clone().find_attrs_for_eq_attribute_set(&attr("supplier", 0)).len(), 2);
    assert_eq!(
        copy.find_attrs_for_eq_attribute_set(&attr("supplier", 0)).len(),
        again.find_attrs_for_eq_attribute_set(&attr("supplier", 0)).len()
    );
}

#[test]
fn test_init_tpch_q6() {
    let (tables, memo) = init_tpch_q6();
    assert_eq!(tables, vec!["lineitem".to_string()]);
    assert_eq!(memo.len(), 3);
    assert_eq!(group(&memo, 2).schema.attributes.len(), 16);
}
