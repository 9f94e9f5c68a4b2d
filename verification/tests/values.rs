use optd_cost_model::common::values::{
    days_from_ce, days_since_unix_epoch, SerializableOrderedF64, TargetType, Value,
};

#[test]
fn as_accessors_return_the_value_held() {
    assert_eq!(Value::UInt8(7).as_u8(), 7);
    assert_eq!(Value::UInt16(700).as_u16(), 700);
    assert_eq!(Value::UInt32(70_000).as_u32(), 70_000);
    assert_eq!(Value::UInt64(u64::MAX).as_u64(), u64::MAX);
    assert_eq!(Value::Int8(-7).as_i8(), -7);
    assert_eq!(Value::Int16(-700).as_i16(), -700);
    assert_eq!(Value::Int32(-70_000).as_i32(), -70_000);
    assert_eq!(Value::Int64(i64::MIN).as_i64(), i64::MIN);
    assert_eq!(Value::Int128(-1).as_i128(), -1);
    assert!(Value::Bool(true).as_bool());
    assert_eq!(Value::String("abc".to_string()).as_str(), "abc");
    assert_eq!(Value::Serialized(vec![1, 0, 2]).as_slice(), vec![1, 0, 2]);
}

#[test]
fn clone_keeps_the_value() {
    let v = Value::Float(SerializableOrderedF64::from_bits(2400.0f64.to_bits()));
    assert_eq!(v.clone(), v);
    let s = Value::Serialized(vec![3, 4]);
    assert_eq!(s.clone(), s);
}

#[test]
fn convert_int_types() {
    assert_eq!(Value::Int64(5).convert_to_type(TargetType::Int32), Value::Int32(5));
    assert_eq!(Value::Int32(-5).convert_to_type(TargetType::Int64), Value::Int64(-5));
    assert_eq!(Value::Int64(9).convert_to_type(TargetType::UInt64), Value::UInt64(9));
    assert_eq!(Value::UInt32(9).convert_to_type(TargetType::UInt64), Value::UInt64(9));
    assert_eq!(Value::UInt64(9).convert_to_type(TargetType::UInt64), Value::UInt64(9));
    assert_eq!(Value::Int32(3).convert_to_type(TargetType::Int32), Value::Int32(3));
}

#[test]
fn convert_widen_then_narrow_gives_back() {
    let v = Value::Int32(i32::MIN);
    let wide = v.convert_to_type(TargetType::Int64);
    assert_eq!(wide.convert_to_type(TargetType::Int32), v);
}

#[test]
fn try_convert_refuses_what_does_not_convert() {
    assert_eq!(Value::Int64(i64::from(i32::MAX) + 1).try_convert_to_type(TargetType::Int32), None);
    assert_eq!(Value::Int64(-1).try_convert_to_type(TargetType::UInt64), None);
    assert_eq!(Value::Bool(true).try_convert_to_type(TargetType::Int64), None);
    assert_eq!(Value::UInt32(1).try_convert_to_type(TargetType::Int32), None);
    assert_eq!(Value::Int64(-1).try_convert_to_type(TargetType::Int64), Some(Value::Int64(-1)));
}

#[test]
fn convert_string_to_date32() {
    let v = Value::String("1970-01-01".to_string());
    assert_eq!(v.convert_to_type(TargetType::Date32), Value::Date32(0));
    let v = Value::String("1995-03-15".to_string());
    assert_eq!(v.convert_to_type(TargetType::Date32), Value::Date32(9204));
    let v = Value::String("1969-12-31".to_string());
    assert_eq!(v.try_convert_to_type(TargetType::Date32), Some(Value::Date32(-1)));
    assert_eq!(Value::Date32(77).convert_to_type(TargetType::Date32), Value::Date32(77));
}

#[test]
fn try_convert_refuses_strings_that_are_not_dates() {
    let v = Value::String("not a date".to_string());
    assert_eq!(v.try_convert_to_type(TargetType::Date32), None);
    let v = Value::String("1995-13-01".to_string());
    assert_eq!(v.try_convert_to_type(TargetType::Date32), None);
}

#[test]
fn test_value_to_string_numbers() {
    assert_eq!(Value::UInt8(7).to_string(), "7(u8)");
    assert_eq!(Value::UInt64(18446744073709551615).to_string(), "18446744073709551615(u64)");
    assert_eq!(Value::Int8(-128).to_string(), "-128(i8)");
    assert_eq!(Value::Int64(-42).to_string(), "-42(i64)");
    assert_eq!(Value::Int32(0).to_string(), "0(i32)");
    assert_eq!(
        Value::Int128(i128::MIN).to_string(),
        "-170141183460469231731687303715884105728(i128)"
    );
    assert_eq!(Value::Date32(9131).to_string(), "9131(date32)");
    assert_eq!(Value::Decimal128(-105).to_string(), "-105(decimal128)");
}

#[test]
fn test_value_to_string_others() {
    assert_eq!(Value::String("abc".to_string()).to_string(), "\"abc\"");
    assert_eq!(Value::Bool(true).to_string(), "true");
    assert_eq!(Value::Bool(false).to_string(), "false");
    assert_eq!(Value::Serialized(vec![1, 2, 3]).to_string(), "<len:3>");
}

#[test]
fn test_value_order() {
    assert!(Value::UInt8(1) < Value::UInt8(2));
    assert!(Value::UInt8(200) < Value::UInt16(0));
    assert!(Value::Int64(-5) < Value::Int64(3));
    assert!(
        Value::Float(SerializableOrderedF64::from_bits(1.0f64.to_bits()))
            < Value::Float(SerializableOrderedF64::from_bits(2.0f64.to_bits()))
    );
}

fn float(x: f64) -> SerializableOrderedF64 {
    SerializableOrderedF64::from_bits(x.to_bits())
}

#[test]
fn test_float_order_follows_the_numbers() {
    assert!(float(-2.0) < float(-1.0));
    assert!(float(-1.0) < float(0.0));
    assert!(float(0.5) < float(1.0));
    assert!(float(f64::NEG_INFINITY) < float(-1.0e300));
    assert!(float(1.0e300) < float(f64::INFINITY));
    assert!(float(f64::INFINITY) < float(f64::NAN));
    assert!(Value::Float(float(-3.0)) < Value::Float(float(3.0)));
}

#[test]
fn test_float_equality_of_zeros_and_nans() {
    assert_eq!(float(-0.0), float(0.0));
    let other_nan = f64::from_bits(0xfff0_0000_0000_0001);
    assert!(other_nan.is_nan());
    assert_eq!(float(other_nan), float(f64::NAN));
    assert_ne!(float(1.0), float(-1.0));
}

#[test]
fn test_float_bits_round_trip() {
    for x in [0.0f64, 1.5, -1.5, 2400.0, f64::INFINITY, f64::NEG_INFINITY, f64::MIN_POSITIVE] {
        assert_eq!(float(x).to_bits(), x.to_bits());
    }
    assert_eq!(float(-0.0).to_bits(), 0.0f64.to_bits());
    assert_eq!(float(f64::from_bits(0xfff0_0000_0000_0001)).to_bits(), 0x7ff8_0000_0000_0000);
}

#[test]
fn test_days_from_ce() {
    assert_eq!(days_from_ce(1970, 1), 719_163);
    assert_eq!(days_from_ce(2, 1), 366);
    assert_eq!(days_from_ce(1, 1), 1);
    assert_eq!(days_from_ce(0, 1), -365);
    assert_eq!(days_from_ce(-1, 1), -730);
    assert_eq!(days_from_ce(2000, 366), 730_485);
    assert_eq!(days_since_unix_epoch(719_163), 0);
    assert_eq!(days_since_unix_epoch(days_from_ce(1995, 1)), 9131);
}
