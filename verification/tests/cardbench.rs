use optd_cost_model::cardbench::get_single_attr_stats;

#[test]
fn keeps_only_single_attribute_combinations() {
    let stats = vec![
        (vec![0], "a"),
        (vec![1, 2], "bc"),
        (vec![2], "c"),
        (vec![], "none"),
    ];
    let single = get_single_attr_stats(stats);
    assert_eq!(single.len(), 2);
    assert_eq!(single[&0], "a");
    assert_eq!(single[&2], "c");
    assert!(!single.contains_key(&1));
}

#[test]
fn first_entry_counts_for_a_repeated_attribute() {
    let single = get_single_attr_stats(vec![(vec![5], 1u32), (vec![5], 2u32)]);
    assert_eq!(single.len(), 1);
    assert_eq!(single[&5], 1);
}

#[test]
fn empty_statistics() {
    let single = get_single_attr_stats::<u8>(vec![]);
    assert!(single.is_empty());
}
