use optd_cost_model::common::properties::attr_ref::{
    AttrRef, BaseTableAttrRef, EqPredicate, GroupattributeRefs, SemanticCorrelation,
};

fn attr(table: &str, attr_idx: usize) -> BaseTableAttrRef {
    BaseTableAttrRef {
        table: table.to_string(),
        attr_idx,
    }
}

#[test]
fn test_eq_base_table_attribute_sets() {
    let attr1 = BaseTableAttrRef {
        table: "t1".to_string(),
        attr_idx: 1,
    };
    let attr2 = BaseTableAttrRef {
        table: "t2".to_string(),
        attr_idx: 2,
    };
    let attr3 = BaseTableAttrRef {
        table: "t3".to_string(),
        attr_idx: 3,
    };
    let attr4 = BaseTableAttrRef {
        table: "t4".to_string(),
        attr_idx: 4,
    };
    let pred1 = EqPredicate::new(attr1.clone(), attr2.clone());
    let pred2 = EqPredicate::new(attr3.clone(), attr4.clone());
    let pred3 = EqPredicate::new(attr1.clone(), attr3.clone());

    let mut eq_attr_sets = SemanticCorrelation::new();

    // (1, 2)
    eq_attr_sets.add_predicate(pred1.clone());
    assert!(eq_attr_sets.is_eq(&attr1, &attr2));

    // (1, 2), (3, 4)
    eq_attr_sets.add_predicate(pred2.clone());
    assert!(eq_attr_sets.is_eq(&attr3, &attr4));
    assert!(!eq_attr_sets.is_eq(&attr2, &attr3));

    let predicates = eq_attr_sets.find_predicates_for_eq_attr_set(&attr1);
    assert_eq!(predicates.len(), 1);
    assert!(predicates.contains(&pred1));

    let predicates = eq_attr_sets.find_predicates_for_eq_attr_set(&attr3);
    assert_eq!(predicates.len(), 1);
    assert!(predicates.contains(&pred2));

    // (1, 2, 3, 4)
    eq_attr_sets.add_predicate(pred3.clone());
    assert!(eq_attr_sets.is_eq(&attr1, &attr3));
    assert!(eq_attr_sets.is_eq(&attr2, &attr4));
    assert!(eq_attr_sets.is_eq(&attr1, &attr4));

    let predicates = eq_attr_sets.find_predicates_for_eq_attr_set(&attr1);
    assert_eq!(predicates.len(), 3);
    assert!(predicates.contains(&pred1));
    assert!(predicates.contains(&pred2));
    assert!(predicates.contains(&pred3));
}

#[test]
fn is_eq_is_false_for_unknown_attributes() {
    let mut c = SemanticCorrelation::new();
    assert!(!c.is_eq(&attr("t", 0), &attr("t", 0)));
    c.add_predicate(EqPredicate::new(attr("t", 0), attr("u", 1)));
    assert!(c.is_eq(&attr("t", 0), &attr("t", 0)));
    assert!(c.is_eq(&attr("u", 1), &attr("t", 0)));
    assert!(!c.is_eq(&attr("t", 0), &attr("v", 2)));
    assert!(!c.is_eq(&attr("v", 2), &attr("v", 2)));
}

#[test]
fn contains_and_num_eq_attributes() {
    let mut c = SemanticCorrelation::default();
    assert!(!c.contains(&attr("a", 0)));
    c.add_predicate(EqPredicate::new(attr("a", 0), attr("b", 0)));
    c.add_predicate(EqPredicate::new(attr("c", 0), attr("d", 0)));
    c.add_predicate(EqPredicate::new(attr("b", 0), attr("c", 0)));
    c.add_predicate(EqPredicate::new(attr("x", 1), attr("y", 1)));
    assert!(c.contains(&attr("a", 0)));
    assert!(c.contains(&attr("y", 1)));
    assert!(!c.contains(&attr("a", 1)));
    assert_eq!(c.num_eq_attributes(&attr("a", 0)), 4);
    assert_eq!(c.num_eq_attributes(&attr("d", 0)), 4);
    assert_eq!(c.num_eq_attributes(&attr("x", 1)), 2);
}

#[test]
fn num_eq_attributes_counts_a_self_equality_once() {
    let mut c = SemanticCorrelation::new();
    c.add_predicate(EqPredicate::new(attr("a", 0), attr("a", 0)));
    assert_eq!(c.num_eq_attributes(&attr("a", 0)), 1);
    // A self-equality has no attribute other than `a` itself.
    assert!(c.find_predicates_for_eq_attr_set(&attr("a", 0)).is_empty());
}

#[test]
fn adding_a_predicate_twice_records_it_once() {
    let mut c = SemanticCorrelation::new();
    let p = EqPredicate::new(attr("a", 0), attr("b", 0));
    c.add_predicate(p.clone());
    c.add_predicate(p.clone());
    let preds = c.find_predicates_for_eq_attr_set(&attr("a", 0));
    assert_eq!(preds, vec![p]);
    assert_eq!(c.num_eq_attributes(&attr("b", 0)), 2);
}

#[test]
fn find_predicates_on_empty_correlation() {
    let mut c = SemanticCorrelation::new();
    assert!(c.find_predicates_for_eq_attr_set(&attr("a", 0)).is_empty());
    assert!(c.find_attrs_for_eq_attribute_set(&attr("a", 0)).is_empty());
}

#[test]
fn find_attrs_for_eq_attribute_set_lists_each_attribute_once() {
    let mut c = SemanticCorrelation::new();
    c.add_predicate(EqPredicate::new(attr("a", 0), attr("b", 0)));
    c.add_predicate(EqPredicate::new(attr("b", 0), attr("c", 0)));
    c.add_predicate(EqPredicate::new(attr("x", 0), attr("y", 0)));
    let mut attrs = c.find_attrs_for_eq_attribute_set(&attr("c", 0));
    attrs.sort_by(|l, r| l.table.cmp(&r.table));
    assert_eq!(attrs, vec![attr("a", 0), attr("b", 0), attr("c", 0)]);
}

#[test]
fn union_joins_both_correlations() {
    let mut x = SemanticCorrelation::new();
    x.add_predicate(EqPredicate::new(attr("a", 0), attr("b", 0)));
    let mut y = SemanticCorrelation::new();
    y.add_predicate(EqPredicate::new(attr("b", 0), attr("c", 0)));
    y.add_predicate(EqPredicate::new(attr("a", 0), attr("b", 0)));
    let mut u = SemanticCorrelation::union(x, y);
    assert!(u.is_eq(&attr("a", 0), &attr("c", 0)));
    assert_eq!(u.num_eq_attributes(&attr("c", 0)), 3);
    assert_eq!(u.find_predicates_for_eq_attr_set(&attr("a", 0)).len(), 2);
}

#[test]
fn merge_of_optional_correlations() {
    assert!(SemanticCorrelation::merge(None, None).is_none());

    let mut x = SemanticCorrelation::new();
    x.add_predicate(EqPredicate::new(attr("a", 0), attr("b", 0)));
    let mut only_x = SemanticCorrelation::merge(Some(x), None).unwrap();
    assert!(only_x.is_eq(&attr("a", 0), &attr("b", 0)));

    let mut y = SemanticCorrelation::new();
    y.add_predicate(EqPredicate::new(attr("c", 0), attr("d", 0)));
    let mut only_y = SemanticCorrelation::merge(None, Some(y)).unwrap();
    assert!(only_y.is_eq(&attr("d", 0), &attr("c", 0)));

    let mut both = SemanticCorrelation::merge(Some(only_x), Some(only_y)).unwrap();
    assert!(both.is_eq(&attr("a", 0), &attr("b", 0)));
    assert!(both.is_eq(&attr("c", 0), &attr("d", 0)));
    assert!(!both.is_eq(&attr("a", 0), &attr("c", 0)));
}

#[test]
fn attr_ref_constructors() {
    let a = AttrRef::base_table_attr_ref("t".to_string(), 3);
    match a {
        AttrRef::BaseTableAttrRef(r) => assert_eq!(r, attr("t", 3)),
        AttrRef::Derived => panic!("expected a base-table reference"),
    }
    let b: AttrRef = attr("u", 1).into();
    assert!(matches!(b, AttrRef::BaseTableAttrRef(ref r) if *r == attr("u", 1)));
}

#[test]
fn group_attribute_refs_getters() {
    let refs = vec![AttrRef::base_table_attr_ref("t".to_string(), 0), AttrRef::Derived];
    let g = GroupattributeRefs::new(refs, None);
    assert_eq!(g.base_table_attribute_refs().len(), 2);
    assert!(matches!(g.base_table_attribute_refs()[1], AttrRef::Derived));
    assert!(g.output_correlation().is_none());

    let mut c = SemanticCorrelation::new();
    c.add_predicate(EqPredicate::new(attr("a", 0), attr("b", 0)));
    let g = GroupattributeRefs::new(vec![], Some(c));
    assert!(g.output_correlation().unwrap().contains(&attr("b", 0)));
}

#[test]
fn union_knows_the_same_equalities_in_either_order() {
    let build = |pairs: &[(&str, &str)]| {
        let mut c = SemanticCorrelation::new();
        for (l, r) in pairs {
            c.add_predicate(EqPredicate::new(attr(l, 0), attr(r, 0)));
        }
        c
    };
    let xs = [("a", "b"), ("c", "d")];
    let ys = [("b", "c"), ("e", "f")];
    let mut xy = SemanticCorrelation::union(build(&xs), build(&ys));
    let mut yx = SemanticCorrelation::union(build(&ys), build(&xs));
    let names = ["a", "b", "c", "d", "e", "f", "g"];
    for l in names {
        for r in names {
            assert_eq!(xy.is_eq(&attr(l, 0), &attr(r, 0)), yx.is_eq(&attr(l, 0), &attr(r, 0)));
        }
    }
    assert!(xy.is_eq(&attr("a", 0), &attr("d", 0)));
    assert!(!xy.is_eq(&attr("a", 0), &attr("e", 0)));
}

#[test]
fn found_attributes_are_equal_to_the_one_asked_about() {
    let mut c = SemanticCorrelation::new();
    c.add_predicate(EqPredicate::new(attr("a", 0), attr("b", 0)));
    c.add_predicate(EqPredicate::new(attr("b", 0), attr("c", 0)));
    c.add_predicate(EqPredicate::new(attr("x", 0), attr("y", 0)));
    for found in c.find_attrs_for_eq_attribute_set(&attr("a", 0)) {
        assert!(c.is_eq(&attr("a", 0), &found));
    }
}
