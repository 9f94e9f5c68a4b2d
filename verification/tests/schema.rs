use optd_cost_model::common::predicates::constant_pred::ConstantType;
use optd_cost_model::common::properties::schema::Schema;
use optd_cost_model::common::properties::Attribute;

#[test]
fn attribute_constructors() {
    let a = Attribute::new("l_orderkey".to_string(), ConstantType::Int32, true);
    assert_eq!(a.name, "l_orderkey");
    assert_eq!(a.typ, ConstantType::Int32);
    assert!(a.nullable);
    let b = Attribute::new_non_null_int64("id".to_string());
    assert_eq!(b.typ, ConstantType::Int64);
    assert!(!b.nullable);
}

#[test]
fn attribute_as_text() {
    let a = Attribute::new("l_comment".to_string(), ConstantType::Utf8String, true);
    assert_eq!(a.to_string(), "l_comment:Utf8String");
    let b = Attribute::new_non_null_int64("id".to_string());
    assert_eq!(b.to_string(), "id:Int64(non-null)");
}

#[test]
fn schema_len_and_is_empty() {
    let empty = Schema::new(vec![]);
    assert_eq!(empty.len(), 0);
    assert!(empty.is_empty());
    let s = Schema::new(vec![
        Attribute::new("a".to_string(), ConstantType::Bool, true),
        Attribute::new("b".to_string(), ConstantType::Date, false),
    ]);
    assert_eq!(s.len(), 2);
    assert!(!s.is_empty());
}

#[test]
fn schema_as_text() {
    assert_eq!(Schema::new(vec![]).to_string(), "[]");
    let s = Schema::new(vec![
        Attribute::new("a".to_string(), ConstantType::Bool, true),
        Attribute::new("b".to_string(), ConstantType::Decimal, false),
        Attribute::new_non_null_int64("c".to_string()),
    ]);
    assert_eq!(s.to_string(), "[a:Bool, b:Decimal(non-null), c:Int64(non-null)]");
}
