use vstd::prelude::*;
use vstd::string::StringExecFns;

verus! {

/// The types of constants.
#[derive(Copy, Clone, PartialEq, Eq, Structural, Hash, Debug)]
pub enum ConstantType {
    Bool,
    Utf8String,
    UInt8,
    UInt16,
    UInt32,
    UInt64,
    Int8,
    Int16,
    Int32,
    Int64,
    Float64,
    Date,
    IntervalMonthDateNano,
    Decimal,
    Binary,
}

/// The name of the variant, as `{:?}` writes it.
pub open spec fn constant_type_name(v: ConstantType) -> Seq<char> {
    match v {
        ConstantType::Bool => "Bool"@,
        ConstantType::Utf8String => "Utf8String"@,
        ConstantType::UInt8 => "UInt8"@,
        ConstantType::UInt16 => "UInt16"@,
        ConstantType::UInt32 => "UInt32"@,
        ConstantType::UInt64 => "UInt64"@,
        ConstantType::Int8 => "Int8"@,
        ConstantType::Int16 => "Int16"@,
        ConstantType::Int32 => "Int32"@,
        ConstantType::Int64 => "Int64"@,
        ConstantType::Float64 => "Float64"@,
        ConstantType::Date => "Date"@,
        ConstantType::IntervalMonthDateNano => "IntervalMonthDateNano"@,
        ConstantType::Decimal => "Decimal"@,
        ConstantType::Binary => "Binary"@,
    }
}

impl ConstantType {
    /// The name of the variant.
    pub(crate) fn debug_name(&self) -> (res: String)
        ensures
            res@ == constant_type_name(*self),
    {
        String::from_str(
            match self {
                ConstantType::Bool => "Bool",
                ConstantType::Utf8String => "Utf8String",
                ConstantType::UInt8 => "UInt8",
                ConstantType::UInt16 => "UInt16",
                ConstantType::UInt32 => "UInt32",
                ConstantType::UInt64 => "UInt64",
                ConstantType::Int8 => "Int8",
                ConstantType::Int16 => "Int16",
                ConstantType::Int32 => "Int32",
                ConstantType::Int64 => "Int64",
                ConstantType::Float64 => "Float64",
                ConstantType::Date => "Date",
                ConstantType::IntervalMonthDateNano => "IntervalMonthDateNano",
                ConstantType::Decimal => "Decimal",
                ConstantType::Binary => "Binary",
            },
        )
    }
}

} // verus!
