use optd_cost_model::common::types::{AttrId, EpochId, ExprId, GroupId, TableId};

#[test]
fn ids_convert_to_i32() {
    assert_eq!(i32::from(GroupId(15)), 15);
    assert_eq!(i32::from(ExprId(86)), 86);
    assert_eq!(i32::from(TableId(0)), 0);
    assert_eq!(i32::from(AttrId(3)), 3);
    assert_eq!(i32::from(EpochId(1)), 1);
    // Only the low 32 bits are kept.
    assert_eq!(i32::from(GroupId(u64::from(u32::MAX))), -1);
    assert_eq!(i32::from(TableId((1 << 32) + 5)), 5);
}

#[test]
fn ids_as_text() {
    assert_eq!(GroupId(15).to_string(), "!15");
    assert_eq!(ExprId(86).to_string(), "86");
    assert_eq!(TableId(0).to_string(), "Table#0");
    assert_eq!(AttrId(1234567890).to_string(), "Attr#1234567890");
    assert_eq!(EpochId(u64::MAX).to_string(), "Epoch#18446744073709551615");
}

#[test]
fn ids_order_by_number() {
    assert!(GroupId(1) < GroupId(2));
    assert_eq!(TableId::default(), TableId(0));
}
