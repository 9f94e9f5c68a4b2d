use vstd::prelude::*;

use vstd::string::StringExecFns;

use crate::utils::{
    decimal, decimal_text, denotes_integer, lemma_decimal_text_denotes, lemma_signed_text_denotes,
    signed_decimal, signed_text,
};

verus! {

/// A 64-bit floating-point number with the equality, hashing and order of
/// `OrderedFloat`: all NaNs are equal and greater than every other number, -0.0 equals
/// 0.0, and other numbers compare numerically.
///
/// It holds [`order_key`] of the number's IEEE-754 bit pattern, so that the derived
/// comparisons on that key are those of the numbers.
#[derive(Clone, Copy, Debug, PartialEq, Eq, Structural, Hash, PartialOrd, Ord)]
pub struct SerializableOrderedF64(u64);

/// The sign bit of a 64-bit float's bit pattern, as a number.
pub open spec fn sign_bit() -> u64 {
    0x8000_0000_0000_0000
}

/// The bit pattern of positive infinity: every exponent bit set, no mantissa bit.
pub open spec fn infinity_bits() -> u64 {
    0x7ff0_0000_0000_0000
}

/// The bit pattern stands for a NaN: every exponent bit is set and some mantissa bit is.
pub open spec fn is_nan_bits(bits: u64) -> bool {
    bits % sign_bit() > infinity_bits()
}

/// The bit pattern with every NaN replaced by the one quiet NaN and -0.0 by 0.0, as
/// `OrderedFloat` hashes a number.
pub open spec fn canonical_bits(bits: u64) -> u64 {
    if is_nan_bits(bits) {
        0x7ff8_0000_0000_0000
    } else if bits == sign_bit() {
        0
    } else {
        bits
    }
}

/// The key by which numbers are compared: of the canonical pattern, a negative number's
/// bits inverted (a larger magnitude comes first), a non-negative number's bits with the
/// sign bit set (after every negative one, a larger magnitude last, NaN after infinity).
pub open spec fn order_key(bits: u64) -> u64 {
    let c = canonical_bits(bits);
    if c >= sign_bit() {
        (u64::MAX - c) as u64
    } else {
        (c + sign_bit()) as u64
    }
}

impl SerializableOrderedF64 {
    /// The number whose IEEE-754 bit pattern is `bits`.
    pub fn from_bits(bits: u64) -> (res: Self)
        ensures
            res.key() == order_key(bits),
    {
        let canonical: u64 = if bits % 0x8000_0000_0000_0000 > 0x7ff0_0000_0000_0000 {
            0x7ff8_0000_0000_0000
        } else if bits == 0x8000_0000_0000_0000 {
            0
        } else {
            bits
        };
        if canonical >= 0x8000_0000_0000_0000 {
            SerializableOrderedF64(u64::MAX - canonical)
        } else {
            SerializableOrderedF64(canonical + 0x8000_0000_0000_0000)
        }
    }

    /// The key held; see [`order_key`].
    pub closed spec fn key(&self) -> u64 {
        self.0
    }

    /// The canonical bit pattern of the number (see [`canonical_bits`]).
    pub fn to_bits(&self) -> (res: u64)
        ensures
            forall|b: u64| order_key(b) == self.key() ==> res == canonical_bits(b),
    {
        if self.0 >= 0x8000_0000_0000_0000 {
            self.0 - 0x8000_0000_0000_0000
        } else {
            u64::MAX - self.0
        }
    }
}

/// The key treats numbers as `OrderedFloat` does: -0.0 and 0.0 have one key, every NaN has
/// the same key, and no number has a greater key than NaN.
pub proof fn lemma_order_key_float_semantics(a: u64, b: u64)
    ensures
        order_key(sign_bit()) == order_key(0),
        is_nan_bits(a) && is_nan_bits(b) ==> order_key(a) == order_key(b),
        is_nan_bits(a) ==> order_key(b) <= order_key(a),
        !is_nan_bits(a) && !is_nan_bits(b) && a < sign_bit() && b < sign_bit() ==> ((order_key(a)
            < order_key(b)) == (a < b)),
{
}

/// Two bit patterns give the same number exactly when their canonical patterns agree;
/// the key keeps nothing else.
pub proof fn lemma_order_key_identifies(a: u64, b: u64)
    ensures
        (order_key(a) == order_key(b)) == (canonical_bits(a) == canonical_bits(b)),
{
}

/// The key orders numbers as `OrderedFloat` does: two non-negative numbers by their
/// patterns, two negative ones the other way round, and every negative one before every
/// non-negative one (NaN, a non-negative pattern, comes last of all).
pub proof fn lemma_order_key_sorts(a: u64, b: u64)
    ensures
        canonical_bits(a) < sign_bit() && canonical_bits(b) < sign_bit() ==> ((order_key(a)
            < order_key(b)) == (canonical_bits(a) < canonical_bits(b))),
        canonical_bits(a) >= sign_bit() && canonical_bits(b) >= sign_bit() ==> ((order_key(a)
            < order_key(b)) == (canonical_bits(a) > canonical_bits(b))),
        canonical_bits(a) >= sign_bit() && canonical_bits(b) < sign_bit() ==> order_key(a)
            < order_key(b),
{
}

/// A constant held by a predicate. Values are ordered by variant first, in the order of
/// declaration, and then by what they hold.
#[derive(Debug, PartialEq, Eq, Hash, PartialOrd, Ord)]
pub enum Value {
    UInt8(u8),
    UInt16(u16),
    UInt32(u32),
    UInt64(u64),
    Int8(i8),
    Int16(i16),
    Int32(i32),
    Int64(i64),
    Int128(i128),
    Float(SerializableOrderedF64),
    String(String),
    Bool(bool),
    Date32(i32),
    Decimal128(i128),
    Serialized(Vec<u8>),
}

/// The model of a [`Value`]: the same variants, with a string held by its characters
/// and serialized data by its bytes.
pub enum ValueModel {
    UInt8(u8),
    UInt16(u16),
    UInt32(u32),
    UInt64(u64),
    Int8(i8),
    Int16(i16),
    Int32(i32),
    Int64(i64),
    Int128(i128),
    Float(SerializableOrderedF64),
    String(Seq<char>),
    Bool(bool),
    Date32(i32),
    Decimal128(i128),
    Serialized(Seq<u8>),
}

impl View for Value {
    type V = ValueModel;

    open spec fn view(&self) -> ValueModel {
        match self {
            Value::UInt8(x) => ValueModel::UInt8(*x),
            Value::UInt16(x) => ValueModel::UInt16(*x),
            Value::UInt32(x) => ValueModel::UInt32(*x),
            Value::UInt64(x) => ValueModel::UInt64(*x),
            Value::Int8(x) => ValueModel::Int8(*x),
            Value::Int16(x) => ValueModel::Int16(*x),
            Value::Int32(x) => ValueModel::Int32(*x),
            Value::Int64(x) => ValueModel::Int64(*x),
            Value::Int128(x) => ValueModel::Int128(*x),
            Value::Float(x) => ValueModel::Float(*x),
            Value::String(x) => ValueModel::String(x@),
            Value::Bool(x) => ValueModel::Bool(*x),
            Value::Date32(x) => ValueModel::Date32(*x),
            Value::Decimal128(x) => ValueModel::Decimal128(*x),
            Value::Serialized(x) => ValueModel::Serialized(x@),
        }
    }
}

impl Clone for Value {
    fn clone(&self) -> (res: Self)
        ensures
            res@ == self@,
    {
        match self {
            Value::UInt8(x) => Value::UInt8(*x),
            Value::UInt16(x) => Value::UInt16(*x),
            Value::UInt32(x) => Value::UInt32(*x),
            Value::UInt64(x) => Value::UInt64(*x),
            Value::Int8(x) => Value::Int8(*x),
            Value::Int16(x) => Value::Int16(*x),
            Value::Int32(x) => Value::Int32(*x),
            Value::Int64(x) => Value::Int64(*x),
            Value::Int128(x) => Value::Int128(*x),
            Value::Float(x) => Value::Float(*x),
            Value::String(x) => Value::String(x.clone()),
            Value::Bool(x) => Value::Bool(*x),
            Value::Date32(x) => Value::Date32(*x),
            Value::Decimal128(x) => Value::Decimal128(*x),
            Value::Serialized(x) => {
                let bytes = x.clone();
                assert(bytes@ =~= x@);
                Value::Serialized(bytes)
            },
        }
    }
}

/// The types that [`Value::convert_to_type`] converts to.
#[derive(Clone, Copy, Debug, PartialEq, Eq, Structural, Hash)]
pub enum TargetType {
    Int32,
    Int64,
    UInt64,
    Date32,
}

/// The year and the day of the year (1 for 1 January) of the date that `s` spells in the
/// form year-month-day, as chrono reads it; `None` where chrono reads no date there.
pub uninterp spec fn iso_date(s: Seq<char>) -> Option<(i32, u32)>;

/// The first year of chrono's dates (262144 BCE).
pub open spec fn min_date_year() -> int {
    -262143
}

/// The last year of chrono's dates.
pub open spec fn max_date_year() -> int {
    262142
}

/// Reads `s` as a date in the form year-month-day: its year and its day of the year.
///
/// Trusted: calls `chrono::NaiveDate::parse_from_str(s, "%Y-%m-%d")` and, where that
/// succeeds, reads the date's `Datelike::year` and `Datelike::ordinal`. The contract
/// claims that the outcome depends on `s` alone, and what chrono documents of every
/// date: its year lies between `NaiveDate::MIN` (262144 BCE) and `NaiveDate::MAX`
/// (262142 CE), and its day of the year between 1 and 366. It says nothing of which
/// strings parse.
#[verifier::external_body]
fn parse_iso_date(s: &str) -> (res: Option<(i32, u32)>)
    ensures
        res == iso_date(s@),
        res matches Some((y, o)) ==> min_date_year() <= y <= max_date_year() && 1 <= o <= 366,
{
    match chrono::NaiveDate::parse_from_str(s, "%Y-%m-%d") {
        Ok(date) => Some((chrono::Datelike::year(&date), chrono::Datelike::ordinal(&date))),
        Err(_) => None,
    }
}

/// The day count, from 1 January of year 1 (day 1), of day `ordinal` of `year` in the
/// proleptic Gregorian calendar, where a year before year 1 counts back (year 0 is the
/// year before year 1), as chrono's `Datelike::num_days_from_ce` counts.
pub open spec fn days_from_ce_spec(year: int, ordinal: int) -> int {
    let y = year - 1;
    365 * y + y / 4 - y / 100 + y / 400 + ordinal
}

/// The day count of 1 January 1970 in the count of [`days_from_ce_spec`].
pub open spec fn unix_epoch_days_from_ce() -> int {
    719163
}

/// The year is a leap year of the Gregorian calendar.
pub open spec fn is_leap_year(year: int) -> bool {
    year % 4 == 0 && (year % 100 != 0 || year % 400 == 0)
}

/// The count is the calendar's: 1 January of year 1 is day 1, each day of a year follows
/// the one before it, and 1 January of a year follows the last day of the year before,
/// which has 366 days in a leap year and 365 in any other.
pub proof fn lemma_days_from_ce_calendar(year: int, ordinal: int)
    ensures
        days_from_ce_spec(1, 1) == 1,
        days_from_ce_spec(year, ordinal + 1) == days_from_ce_spec(year, ordinal) + 1,
        days_from_ce_spec(year + 1, 1) == days_from_ce_spec(year, 1) + if is_leap_year(year) {
            366int
        } else {
            365int
        },
{
}

/// 1 January 1970 is day [`unix_epoch_days_from_ce`] of the count.
pub proof fn lemma_unix_epoch_day()
    ensures
        days_from_ce_spec(1970, 1) == unix_epoch_days_from_ce(),
{
}

/// The day count, from 1 January of year 1, of day `ordinal` of `year`; see
/// [`days_from_ce_spec`].
pub fn days_from_ce(year: i32, ordinal: u32) -> (res: i32)
    requires
        min_date_year() <= year <= max_date_year(),
        1 <= ordinal <= 366,
    ensures
        res == days_from_ce_spec(year as int, ordinal as int),
{
    let y: i32 = year - 1;
    if y >= 0 {
        let div_100: i32 = y / 100;
        proof {
            vstd::arithmetic::div_mod::lemma_div_denominator(y as int, 100, 4);
        }
        y * 1461 / 4 - div_100 + div_100 / 4 + ordinal as i32
    } else {
        // Shift the year forward by whole 400-year cycles of 146097 days.
        let excess: i32 = 1 + (-y) / 400;
        let shifted: i32 = y + excess * 400;
        let div_100: i32 = shifted / 100;
        proof {
            vstd::arithmetic::div_mod::lemma_div_denominator(shifted as int, 100, 4);
            assert(shifted / 4 == y / 4 + 100 * excess);
            assert(shifted / 100 == y / 100 + 4 * excess);
            assert(shifted / 400 == y / 400 + excess);
        }
        shifted * 1461 / 4 - div_100 + div_100 / 4 + ordinal as i32 - excess * 146097
    }
}

/// The day count, from 1 January 1970, of the day `days_from_ce` days from 1 January
/// of year 1 (day 1), as an `i32` (wrapping where it does not fit).
pub fn days_since_unix_epoch(days_from_ce: i32) -> (res: i32)
    ensures
        res == (days_from_ce - unix_epoch_days_from_ce()) as i32,
{
    (days_from_ce as i64 - 719163) as i32
}

/// The day count, from 1 January 1970, of the date that `s` spells in the form
/// year-month-day; `None` where chrono reads no date there.
pub open spec fn iso_date_days_since_epoch(s: Seq<char>) -> Option<i32> {
    match iso_date(s) {
        Some((y, o)) => Some((days_from_ce_spec(y as int, o as int) - unix_epoch_days_from_ce()) as i32),
        None => None,
    }
}

/// The value `v` converted to `t`, where it converts: an `Int64` to `Int32` only where
/// it is in range, an `Int64` to `UInt64` only where it is not negative, a string to
/// `Date32` only where it spells a date (as days since 1 January 1970).
pub open spec fn convert_spec(v: ValueModel, t: TargetType) -> Option<ValueModel> {
    match t {
        TargetType::Int32 => match v {
            ValueModel::Int32(x) => Some(ValueModel::Int32(x)),
            ValueModel::Int64(x) => if i32::MIN <= x <= i32::MAX {
                Some(ValueModel::Int32(x as i32))
            } else {
                None
            },
            _ => None,
        },
        TargetType::Int64 => match v {
            ValueModel::Int64(x) => Some(ValueModel::Int64(x)),
            ValueModel::Int32(x) => Some(ValueModel::Int64(x as i64)),
            _ => None,
        },
        TargetType::UInt64 => match v {
            ValueModel::Int64(x) => if x >= 0 {
                Some(ValueModel::UInt64(x as u64))
            } else {
                None
            },
            ValueModel::UInt64(x) => Some(ValueModel::UInt64(x)),
            ValueModel::UInt32(x) => Some(ValueModel::UInt64(x as u64)),
            _ => None,
        },
        TargetType::Date32 => match v {
            ValueModel::Date32(d) => Some(ValueModel::Date32(d)),
            ValueModel::String(s) => match iso_date_days_since_epoch(s) {
                Some(d) => Some(ValueModel::Date32(d)),
                None => None,
            },
            _ => None,
        },
    }
}

/// The number an integer value holds; `None` for any other value.
pub open spec fn integer_of(v: ValueModel) -> Option<int> {
    match v {
        ValueModel::UInt8(x) => Some(x as int),
        ValueModel::UInt16(x) => Some(x as int),
        ValueModel::UInt32(x) => Some(x as int),
        ValueModel::UInt64(x) => Some(x as int),
        ValueModel::Int8(x) => Some(x as int),
        ValueModel::Int16(x) => Some(x as int),
        ValueModel::Int32(x) => Some(x as int),
        ValueModel::Int64(x) => Some(x as int),
        ValueModel::Int128(x) => Some(x as int),
        _ => None,
    }
}

/// The value is of the type `t`.
pub open spec fn has_target_type(v: ValueModel, t: TargetType) -> bool {
    match t {
        TargetType::Int32 => v is Int32,
        TargetType::Int64 => v is Int64,
        TargetType::UInt64 => v is UInt64,
        TargetType::Date32 => v is Date32,
    }
}

/// A conversion between integer types keeps the number: what a conversion gives has the
/// type asked for, and where the value converted is an integer, the result holds the
/// same number. A conversion to an integer type succeeds exactly on the integer values
/// of an accepted source type whose number fits the target.
pub proof fn lemma_conversion_keeps_the_number(v: ValueModel, t: TargetType)
    ensures
        convert_spec(v, t) matches Some(w) ==> has_target_type(w, t),
        convert_spec(v, t) matches Some(w) ==> (integer_of(v) is Some ==> integer_of(w)
            == integer_of(v)),
        t == TargetType::Int32 ==> (convert_spec(v, t) is Some <==> ((v is Int32 || v is Int64)
            && i32::MIN <= integer_of(v)->0 <= i32::MAX)),
        t == TargetType::Int64 ==> (convert_spec(v, t) is Some <==> (v is Int32 || v is Int64)),
        t == TargetType::UInt64 ==> (convert_spec(v, t) is Some <==> ((v is UInt32 || v is UInt64
            || v is Int64) && 0 <= integer_of(v)->0)),
{
}

/// Converting an integer to a wider integer type and back gives it back.
pub proof fn lemma_widen_then_narrow(v: ValueModel)
    requires
        v is Int32,
    ensures
        convert_spec(convert_spec(v, TargetType::Int64).unwrap(), TargetType::Int32) == Some(v),
{
}

/// Converting a value to the type it has gives it back.
pub proof fn lemma_convert_to_own_type(v: ValueModel, t: TargetType)
    requires
        (v is Int32 && t == TargetType::Int32) || (v is Int64 && t == TargetType::Int64) || (
        v is UInt64 && t == TargetType::UInt64) || (v is Date32 && t == TargetType::Date32),
    ensures
        convert_spec(v, t) == Some(v),
{
}

/// The value as `{}` shows it, for every value but a float: a number followed by its
/// type in brackets, a string in double quotes, a boolean as `true` or `false`, and
/// serialized data by its length.
pub open spec fn value_text(v: ValueModel) -> Seq<char> {
    match v {
        ValueModel::UInt8(x) => decimal_text(x as nat) + "(u8)"@,
        ValueModel::UInt16(x) => decimal_text(x as nat) + "(u16)"@,
        ValueModel::UInt32(x) => decimal_text(x as nat) + "(u32)"@,
        ValueModel::UInt64(x) => decimal_text(x as nat) + "(u64)"@,
        ValueModel::Int8(x) => signed_text(x as int) + "(i8)"@,
        ValueModel::Int16(x) => signed_text(x as int) + "(i16)"@,
        ValueModel::Int32(x) => signed_text(x as int) + "(i32)"@,
        ValueModel::Int64(x) => signed_text(x as int) + "(i64)"@,
        ValueModel::Int128(x) => signed_text(x as int) + "(i128)"@,
        ValueModel::Float(_) => Seq::empty(),
        ValueModel::String(x) => "\""@ + x + "\""@,
        ValueModel::Bool(x) => if x {
            "true"@
        } else {
            "false"@
        },
        ValueModel::Date32(x) => signed_text(x as int) + "(date32)"@,
        ValueModel::Decimal128(x) => signed_text(x as int) + "(decimal128)"@,
        ValueModel::Serialized(x) => "<len:"@ + decimal_text(x.len()) + ">"@,
    }
}

impl Value {
    /// The value as text; see [`value_text`]. A float is shown by the caller, which
    /// holds floating point.
    pub fn to_string(&self) -> (res: String)
        requires
            !(self is Float),
        ensures
            res@ == value_text(self@),
    {
        match self {
            Value::UInt8(x) => decimal(*x as u128).concat("(u8)"),
            Value::UInt16(x) => decimal(*x as u128).concat("(u16)"),
            Value::UInt32(x) => decimal(*x as u128).concat("(u32)"),
            Value::UInt64(x) => decimal(*x as u128).concat("(u64)"),
            Value::Int8(x) => signed_decimal(*x as i128).concat("(i8)"),
            Value::Int16(x) => signed_decimal(*x as i128).concat("(i16)"),
            Value::Int32(x) => signed_decimal(*x as i128).concat("(i32)"),
            Value::Int64(x) => signed_decimal(*x as i128).concat("(i64)"),
            Value::Int128(x) => signed_decimal(*x).concat("(i128)"),
            // Excluded by the precondition.
            Value::Float(_) => String::new(),
            Value::String(x) => String::from_str("\"").concat(x.as_str()).concat("\""),
            Value::Bool(x) => if *x {
                String::from_str("true")
            } else {
                String::from_str("false")
            },
            Value::Date32(x) => signed_decimal(*x as i128).concat("(date32)"),
            Value::Decimal128(x) => signed_decimal(*x).concat("(decimal128)"),
            Value::Serialized(x) => String::from_str("<len:").concat(
                decimal(x.len() as u128).as_str(),
            ).concat(">"),
        }
    }
}

/// The number that the text of a value writes: that of an integer, a date (days since
/// 1 January 1970) or a decimal; `None` for any other value.
pub open spec fn shown_number(v: ValueModel) -> Option<int> {
    match v {
        ValueModel::Date32(x) => Some(x as int),
        ValueModel::Decimal128(x) => Some(x as int),
        _ => integer_of(v),
    }
}

/// The bracketed type name that follows the number in the text of a value.
pub open spec fn number_tag(v: ValueModel) -> Seq<char> {
    match v {
        ValueModel::UInt8(_) => "(u8)"@,
        ValueModel::UInt16(_) => "(u16)"@,
        ValueModel::UInt32(_) => "(u32)"@,
        ValueModel::UInt64(_) => "(u64)"@,
        ValueModel::Int8(_) => "(i8)"@,
        ValueModel::Int16(_) => "(i16)"@,
        ValueModel::Int32(_) => "(i32)"@,
        ValueModel::Int64(_) => "(i64)"@,
        ValueModel::Int128(_) => "(i128)"@,
        ValueModel::Date32(_) => "(date32)"@,
        ValueModel::Decimal128(_) => "(decimal128)"@,
        _ => Seq::empty(),
    }
}

/// The text of a value that holds a number is that number written in decimal as `{}`
/// writes it (a minus sign in front of a negative one, no leading zeros), followed by its
/// type in brackets.
pub proof fn lemma_number_text(v: ValueModel)
    requires
        shown_number(v) is Some,
    ensures
        exists|s: Seq<char>| value_text(v) == s + number_tag(v) && denotes_integer(s, shown_number(v)->0),
{
    let x = shown_number(v)->0;
    if v is UInt8 || v is UInt16 || v is UInt32 || v is UInt64 {
        lemma_decimal_text_denotes(x as nat);
        let s = decimal_text(x as nat);
        assert(value_text(v) == s + number_tag(v) && denotes_integer(s, x));
    } else {
        lemma_signed_text_denotes(x);
        let s = signed_text(x);
        assert(value_text(v) == s + number_tag(v) && denotes_integer(s, x));
    }
}

/// The text of a string is the string in double quotes, that of a boolean is `true` or
/// `false`, and that of serialized data is its length in decimal inside `<len:` and `>`.
pub proof fn lemma_other_value_text(v: ValueModel)
    ensures
        v matches ValueModel::String(x) ==> value_text(v) == seq!['"'] + x + seq!['"'],
        v matches ValueModel::Bool(b) ==> value_text(v) == if b {
            seq!['t', 'r', 'u', 'e']
        } else {
            seq!['f', 'a', 'l', 's', 'e']
        },
        v matches ValueModel::Serialized(x) ==> exists|s: Seq<char>|
            value_text(v) == seq!['<', 'l', 'e', 'n', ':'] + s + seq!['>'] && denotes_integer(
                s,
                x.len() as int,
            ),
{
    reveal_strlit("\"");
    reveal_strlit("true");
    reveal_strlit("false");
    reveal_strlit("<len:");
    reveal_strlit(">");
    assert("\""@ =~= seq!['"']);
    assert("true"@ =~= seq!['t', 'r', 'u', 'e']);
    assert("false"@ =~= seq!['f', 'a', 'l', 's', 'e']);
    assert("<len:"@ =~= seq!['<', 'l', 'e', 'n', ':']);
    assert(">"@ =~= seq!['>']);
    if let ValueModel::Serialized(x) = v {
        lemma_decimal_text_denotes(x.len());
        let s = decimal_text(x.len());
        assert(value_text(v) == seq!['<', 'l', 'e', 'n', ':'] + s + seq!['>']);
    }
}

/// The `as_*()` functions do not perform conversions. This is *unlike* the `as`
/// keyword in rust.
impl Value {
    pub fn as_u8(&self) -> (res: u8)
        requires
            self is UInt8,
        ensures
            *self == Value::UInt8(res),
    {
        match self {
            Value::UInt8(i) => *i,
            _ => 0,
        }
    }

    pub fn as_u16(&self) -> (res: u16)
        requires
            self is UInt16,
        ensures
            *self == Value::UInt16(res),
    {
        match self {
            Value::UInt16(i) => *i,
            _ => 0,
        }
    }

    pub fn as_u32(&self) -> (res: u32)
        requires
            self is UInt32,
        ensures
            *self == Value::UInt32(res),
    {
        match self {
            Value::UInt32(i) => *i,
            _ => 0,
        }
    }

    pub fn as_u64(&self) -> (res: u64)
        requires
            self is UInt64,
        ensures
            *self == Value::UInt64(res),
    {
        match self {
            Value::UInt64(i) => *i,
            _ => 0,
        }
    }

    pub fn as_i8(&self) -> (res: i8)
        requires
            self is Int8,
        ensures
            *self == Value::Int8(res),
    {
        match self {
            Value::Int8(i) => *i,
            _ => 0,
        }
    }

    pub fn as_i16(&self) -> (res: i16)
        requires
            self is Int16,
        ensures
            *self == Value::Int16(res),
    {
        match self {
            Value::Int16(i) => *i,
            _ => 0,
        }
    }

    pub fn as_i32(&self) -> (res: i32)
        requires
            self is Int32,
        ensures
            *self == Value::Int32(res),
    {
        match self {
            Value::Int32(i) => *i,
            _ => 0,
        }
    }

    pub fn as_i64(&self) -> (res: i64)
        requires
            self is Int64,
        ensures
            *self == Value::Int64(res),
    {
        match self {
            Value::Int64(i) => *i,
            _ => 0,
        }
    }

    pub fn as_i128(&self) -> (res: i128)
        requires
            self is Int128,
        ensures
            *self == Value::Int128(res),
    {
        match self {
            Value::Int128(i) => *i,
            _ => 0,
        }
    }

    pub fn as_bool(&self) -> (res: bool)
        requires
            self is Bool,
        ensures
            *self == Value::Bool(res),
    {
        match self {
            Value::Bool(i) => *i,
            _ => false,
        }
    }

    pub fn as_str(&self) -> (res: String)
        requires
            self is String,
        ensures
            *self == Value::String(res),
    {
        match self {
            Value::String(i) => i.clone(),
            _ => String::new(),
        }
    }

    pub fn as_slice(&self) -> (res: Vec<u8>)
        requires
            self is Serialized,
        ensures
            self@ == ValueModel::Serialized(res@),
    {
        match self {
            Value::Serialized(i) => {
                let bytes = i.clone();
                assert(bytes@ =~= i@);
                bytes
            },
            _ => Vec::new(),
        }
    }

    /// The value converted to `typ`; see [`convert_spec`] for which values convert.
    pub fn convert_to_type(&self, typ: TargetType) -> (res: Value)
        requires
            convert_spec(self@, typ) is Some,
        ensures
            convert_spec(self@, typ) == Some(res@),
    {
        match typ {
            TargetType::Int32 => Value::Int32(
                match self {
                    Value::Int32(x) => *x,
                    Value::Int64(x) => *x as i32,
                    _ => 0,
                },
            ),
            TargetType::Int64 => Value::Int64(
                match self {
                    Value::Int64(x) => *x,
                    Value::Int32(x) => *x as i64,
                    _ => 0,
                },
            ),
            TargetType::UInt64 => Value::UInt64(
                match self {
                    Value::Int64(x) => *x as u64,
                    Value::UInt64(x) => *x,
                    Value::UInt32(x) => *x as u64,
                    _ => 0,
                },
            ),
            TargetType::Date32 => Value::Date32(
                match self {
                    Value::Date32(d) => *d,
                    Value::String(s) => {
                        let (year, ordinal) = parse_iso_date(s.as_str()).unwrap();
                        days_since_unix_epoch(days_from_ce(year, ordinal))
                    },
                    _ => 0,
                },
            ),
        }
    }

    /// The value converted to `typ`, or `None` where it does not convert.
    pub fn try_convert_to_type(&self, typ: TargetType) -> (res: Option<Value>)
        ensures
            match convert_spec(self@, typ) {
                Some(m) => res matches Some(r) && r@ == m,
                None => res is None,
            },
    {
        let convertible = match (typ, self) {
            (TargetType::Int32, Value::Int32(_)) => true,
            (TargetType::Int32, Value::Int64(x)) => i32::MIN as i64 <= *x && *x <= i32::MAX as i64,
            (TargetType::Int64, Value::Int64(_)) => true,
            (TargetType::Int64, Value::Int32(_)) => true,
            (TargetType::UInt64, Value::Int64(x)) => *x >= 0,
            (TargetType::UInt64, Value::UInt64(_)) => true,
            (TargetType::UInt64, Value::UInt32(_)) => true,
            (TargetType::Date32, Value::Date32(_)) => true,
            (TargetType::Date32, Value::String(s)) => parse_iso_date(s.as_str()).is_some(),
            _ => false,
        };
        if convertible {
            Some(self.convert_to_type(typ))
        } else {
            None
        }
    }
}

} // verus!
