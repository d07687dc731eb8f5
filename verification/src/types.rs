use vstd::prelude::*;
use vstd::string::StringExecFns;
use polars::prelude::{DataType, Expr};
use crate::backend::{
    bool_literal, boolean_data_type, boolean_type, copy_expr, float_data_type, float_type,
    int_literal, integer_data_type, integer_type, lit_bool, lit_int, lit_text, string_data_type,
    string_type, temporal_data_type, temporal_type, text_literal,
};
use crate::{FfiResult, RawStr, ERROR_INVALID_UTF8, ERROR_POLARS_OPERATION};

verus! {

/// Arguments of a column reference.
pub struct ColumnArgs {
    pub name: RawStr,
}

/// Arguments of a literal.
pub struct LiteralArgs {
    pub literal: Literal,
}

/// Arguments of a renaming.
pub struct AliasArgs {
    pub name: RawStr,
}

/// Arguments of the string tests that take a pattern.
pub struct StringArgs {
    pub pattern: RawStr,
}

/// Arguments of standard deviation and variance: the divisor is the number of
/// values less `ddof`.
pub struct AggregationArgs {
    pub ddof: u8,
}

/// Arguments of a count.
pub struct CountArgs {
    pub include_nulls: bool,
}

/// Arguments of a cast: the packed code of the target type, whether a value
/// that cannot be converted is an error, and whether numbers out of range
/// wrap around.
pub struct CastArgs {
    pub dtype: u32,
    pub strict: bool,
    pub wrap_numerical: bool,
}

/// A scalar as the host passes it: a tag and one slot for each kind of value.
/// The tag says which slot counts: 0 the integer, 1 the float, 2 the string,
/// 3 the boolean. The float arrives as the literal expression of its value.
pub struct Literal {
    pub value_type: u8,
    pub int_value: i64,
    pub float_value: Expr,
    pub string_value: RawStr,
    pub bool_value: bool,
}

/// Why a literal is no expression.
#[derive(Debug, Clone, Copy, PartialEq, Eq, Structural)]
pub enum LiteralError {
    /// The string slot counts and does not hold UTF-8.
    InvalidUtf8,
    /// The tag names no slot.
    InvalidType,
}

impl LiteralError {
    /// The message that reports the error.
    pub open spec fn message_spec(self) -> Seq<char> {
        match self {
            LiteralError::InvalidUtf8 => "Invalid UTF-8 in string literal"@,
            LiteralError::InvalidType => "Invalid literal type"@,
        }
    }

    /// The message that reports the error.
    pub fn message(&self) -> (s: &'static str)
        ensures
            s@ == self.message_spec(),
    {
        match self {
            LiteralError::InvalidUtf8 => "Invalid UTF-8 in string literal",
            LiteralError::InvalidType => "Invalid literal type",
        }
    }

    /// The error code under which the error is reported.
    pub open spec fn code_spec(self) -> i32 {
        match self {
            LiteralError::InvalidUtf8 => ERROR_INVALID_UTF8,
            LiteralError::InvalidType => ERROR_POLARS_OPERATION,
        }
    }

    /// The error code under which the error is reported.
    pub fn code(&self) -> (c: i32)
        ensures
            c == self.code_spec(),
    {
        match self {
            LiteralError::InvalidUtf8 => ERROR_INVALID_UTF8,
            LiteralError::InvalidType => ERROR_POLARS_OPERATION,
        }
    }
}

impl Literal {
    /// The expression a literal stands for: the literal of the slot that the
    /// tag selects.
    pub open spec fn to_expr_spec(&self) -> Result<Expr, LiteralError> {
        if self.value_type == 0 {
            Ok(int_literal(self.int_value))
        } else if self.value_type == 1 {
            Ok(self.float_value)
        } else if self.value_type == 2 {
            if self.string_value.is_text() {
                Ok(text_literal(self.string_value.text()))
            } else {
                Err(LiteralError::InvalidUtf8)
            }
        } else if self.value_type == 3 {
            Ok(bool_literal(self.bool_value))
        } else {
            Err(LiteralError::InvalidType)
        }
    }

    /// Builds the expression a literal stands for.
    pub fn to_expr(&self) -> (r: Result<Expr, LiteralError>)
        ensures
            r == self.to_expr_spec(),
    {
        match self.value_type {
            0 => Ok(lit_int(self.int_value)),
            1 => Ok(copy_expr(&self.float_value)),
            2 => match self.string_value.as_str() {
                Ok(s) => Ok(lit_text(s)),
                Err(_) => Err(LiteralError::InvalidUtf8),
            },
            3 => Ok(lit_bool(self.bool_value)),
            _ => Err(LiteralError::InvalidType),
        }
    }
}

/// The integer types a cast can target.
#[derive(Debug, Clone, Copy, PartialEq, Eq, Structural)]
pub enum IntegerType {
    Int8,
    Int16,
    Int32,
    Int64,
    UInt8,
    UInt16,
    UInt32,
    UInt64,
}

/// The floating-point types a cast can target.
#[derive(Debug, Clone, Copy, PartialEq, Eq, Structural)]
pub enum FloatType {
    Float32,
    Float64,
}

/// The string types a cast can target.
#[derive(Debug, Clone, Copy, PartialEq, Eq, Structural)]
pub enum StringType {
    Utf8,
}

/// The temporal types a cast can target.
#[derive(Debug, Clone, Copy, PartialEq, Eq, Structural)]
pub enum TemporalType {
    Date,
    Time,
    DatetimeNanoseconds,
    DatetimeMicroseconds,
    DatetimeMilliseconds,
    DatetimeSeconds,
}

/// The temporal types that the columnar library has. It counts datetimes in
/// nanoseconds, microseconds or milliseconds and in nothing coarser.
#[derive(Debug, Clone, Copy, PartialEq, Eq, Structural)]
pub enum StoredTemporalType {
    Date,
    Time,
    DatetimeNanoseconds,
    DatetimeMicroseconds,
    DatetimeMilliseconds,
}

/// The boolean types a cast can target.
#[derive(Debug, Clone, Copy, PartialEq, Eq, Structural)]
pub enum BooleanType {
    Bool,
}

/// The target of a cast: a family and a type within it.
#[derive(Debug, Clone, Copy, PartialEq, Eq, Structural)]
pub enum CastTarget {
    Integer(IntegerType),
    Float(FloatType),
    String(StringType),
    Temporal(TemporalType),
    Boolean(BooleanType),
}

/// The digit that writes a number below ten.
pub open spec fn digit_char(d: nat) -> char {
    if d == 0 {
        '0'
    } else if d == 1 {
        '1'
    } else if d == 2 {
        '2'
    } else if d == 3 {
        '3'
    } else if d == 4 {
        '4'
    } else if d == 5 {
        '5'
    } else if d == 6 {
        '6'
    } else if d == 7 {
        '7'
    } else if d == 8 {
        '8'
    } else {
        '9'
    }
}

/// A number written in decimal, without sign or leading zeros.
pub open spec fn decimal(n: nat) -> Seq<char>
    decreases n,
{
    if n < 10 {
        seq![digit_char(n)]
    } else {
        decimal(n / 10).push(digit_char(n % 10))
    }
}

/// The text of one digit.
fn digit_text(d: u32) -> (s: &'static str)
    requires
        d < 10,
    ensures
        s@ == seq![digit_char(d as nat)],
{
    proof {
        reveal_strlit("0");
        reveal_strlit("1");
        reveal_strlit("2");
        reveal_strlit("3");
        reveal_strlit("4");
        reveal_strlit("5");
        reveal_strlit("6");
        reveal_strlit("7");
        reveal_strlit("8");
        reveal_strlit("9");
    }
    let s = if d == 0 {
        "0"
    } else if d == 1 {
        "1"
    } else if d == 2 {
        "2"
    } else if d == 3 {
        "3"
    } else if d == 4 {
        "4"
    } else if d == 5 {
        "5"
    } else if d == 6 {
        "6"
    } else if d == 7 {
        "7"
    } else if d == 8 {
        "8"
    } else {
        "9"
    };
    assert(s@ =~= seq![digit_char(d as nat)]);
    s
}

/// Writes a number in decimal.
pub fn decimal_text(n: u32) -> (s: String)
    ensures
        s@ == decimal(n as nat),
    decreases n,
{
    if n < 10 {
        String::from_str(digit_text(n))
    } else {
        let s = decimal_text(n / 10).concat(digit_text(n % 10));
        assert(s@ =~= decimal((n / 10) as nat).push(digit_char((n % 10) as nat)));
        s
    }
}

/// A message that ends in a number.
pub fn numbered_message(prefix: &str, n: u32) -> (s: String)
    ensures
        s@ == prefix@ + decimal(n as nat),
{
    let digits = decimal_text(n);
    String::from_str(prefix).concat(digits.as_str())
}

/// The family of a packed type code: its upper 16 bits.
pub open spec fn type_family(encoded: u32) -> u32 {
    encoded / 0x1_0000
}

/// The variant of a packed type code: its lower 16 bits.
pub open spec fn type_variant(encoded: u32) -> u32 {
    encoded % 0x1_0000
}

/// The type that a family and a variant within it name, if any. Family 0
/// holds the integers, 1 the floats, 2 the strings, 3 the temporal types and
/// 4 the booleans. Each pair that names a target names a target of its own;
/// `target_data_type` says to which columnar type a target is cast.
pub open spec fn cast_target_of(family: u32, variant: u32) -> Option<CastTarget> {
    if family == 0 {
        if variant == 1 {
            Some(CastTarget::Integer(IntegerType::Int8))
        } else if variant == 2 {
            Some(CastTarget::Integer(IntegerType::Int16))
        } else if variant == 3 {
            Some(CastTarget::Integer(IntegerType::Int32))
        } else if variant == 4 {
            Some(CastTarget::Integer(IntegerType::Int64))
        } else if variant == 5 {
            Some(CastTarget::Integer(IntegerType::UInt8))
        } else if variant == 6 {
            Some(CastTarget::Integer(IntegerType::UInt16))
        } else if variant == 7 {
            Some(CastTarget::Integer(IntegerType::UInt32))
        } else if variant == 8 {
            Some(CastTarget::Integer(IntegerType::UInt64))
        } else {
            None
        }
    } else if family == 1 {
        if variant == 1 {
            Some(CastTarget::Float(FloatType::Float32))
        } else if variant == 2 {
            Some(CastTarget::Float(FloatType::Float64))
        } else {
            None
        }
    } else if family == 2 {
        if variant == 1 {
            Some(CastTarget::String(StringType::Utf8))
        } else {
            None
        }
    } else if family == 3 {
        if variant == 1 {
            Some(CastTarget::Temporal(TemporalType::Date))
        } else if variant == 2 {
            Some(CastTarget::Temporal(TemporalType::Time))
        } else if variant == 3 {
            Some(CastTarget::Temporal(TemporalType::DatetimeNanoseconds))
        } else if variant == 4 {
            Some(CastTarget::Temporal(TemporalType::DatetimeMicroseconds))
        } else if variant == 5 {
            Some(CastTarget::Temporal(TemporalType::DatetimeMilliseconds))
        } else if variant == 6 {
            Some(CastTarget::Temporal(TemporalType::DatetimeSeconds))
        } else {
            None
        }
    } else if family == 4 {
        if variant == 1 {
            Some(CastTarget::Boolean(BooleanType::Bool))
        } else {
            None
        }
    } else {
        None
    }
}

/// The message for a code that names no type: it names the family where the
/// family is unknown, and the variant where the family is known.
pub open spec fn unknown_type_message(family: u32, variant: u32) -> Seq<char> {
    if family == 0 {
        "Unknown integer type variant: "@ + decimal(variant as nat)
    } else if family == 1 {
        "Unknown float type variant: "@ + decimal(variant as nat)
    } else if family == 2 {
        "Unknown string type variant: "@ + decimal(variant as nat)
    } else if family == 3 {
        "Unknown temporal type variant: "@ + decimal(variant as nat)
    } else if family == 4 {
        "Unknown boolean type variant: "@ + decimal(variant as nat)
    } else {
        "Unknown data type family: "@ + decimal(family as nat)
    }
}

/// The failure that reports a code that names no type.
fn unknown_variant(family: u32, variant: u32) -> (r: FfiResult)
    requires
        cast_target_of(family, variant) is None,
    ensures
        r.is_error(ERROR_POLARS_OPERATION, unknown_type_message(family, variant)),
{
    let message = match family {
        0 => numbered_message("Unknown integer type variant: ", variant),
        1 => numbered_message("Unknown float type variant: ", variant),
        2 => numbered_message("Unknown string type variant: ", variant),
        3 => numbered_message("Unknown temporal type variant: ", variant),
        4 => numbered_message("Unknown boolean type variant: ", variant),
        _ => numbered_message("Unknown data type family: ", family),
    };
    FfiResult::error(ERROR_POLARS_OPERATION, message.as_str())
}

/// Decodes a packed type code: the upper 16 bits select the family, the lower
/// 16 bits the type within it. A code that names no type is a failure of the
/// columnar operation.
pub fn decode_data_type(encoded: u32) -> (r: Result<CastTarget, FfiResult>)
    ensures
        match cast_target_of(type_family(encoded), type_variant(encoded)) {
            Some(target) => r matches Ok(t) && t == target,
            None => r matches Err(e) && e.is_error(
                ERROR_POLARS_OPERATION,
                unknown_type_message(type_family(encoded), type_variant(encoded)),
            ),
        },
{
    let family: u32 = (encoded >> 16) & 0xFFFF;
    let variant: u32 = encoded & 0xFFFF;
    assert(family == encoded / 0x1_0000 && variant == encoded % 0x1_0000) by (bit_vector)
        requires
            family == (encoded >> 16) & 0xFFFF,
            variant == encoded & 0xFFFF,
    ;
    match family {
        0 => match variant {
            1 => Ok(CastTarget::Integer(IntegerType::Int8)),
            2 => Ok(CastTarget::Integer(IntegerType::Int16)),
            3 => Ok(CastTarget::Integer(IntegerType::Int32)),
            4 => Ok(CastTarget::Integer(IntegerType::Int64)),
            5 => Ok(CastTarget::Integer(IntegerType::UInt8)),
            6 => Ok(CastTarget::Integer(IntegerType::UInt16)),
            7 => Ok(CastTarget::Integer(IntegerType::UInt32)),
            8 => Ok(CastTarget::Integer(IntegerType::UInt64)),
            _ => Err(unknown_variant(family, variant)),
        },
        1 => match variant {
            1 => Ok(CastTarget::Float(FloatType::Float32)),
            2 => Ok(CastTarget::Float(FloatType::Float64)),
            _ => Err(unknown_variant(family, variant)),
        },
        2 => match variant {
            1 => Ok(CastTarget::String(StringType::Utf8)),
            _ => Err(unknown_variant(family, variant)),
        },
        3 => match variant {
            1 => Ok(CastTarget::Temporal(TemporalType::Date)),
            2 => Ok(CastTarget::Temporal(TemporalType::Time)),
            3 => Ok(CastTarget::Temporal(TemporalType::DatetimeNanoseconds)),
            4 => Ok(CastTarget::Temporal(TemporalType::DatetimeMicroseconds)),
            5 => Ok(CastTarget::Temporal(TemporalType::DatetimeMilliseconds)),
            6 => Ok(CastTarget::Temporal(TemporalType::DatetimeSeconds)),
            _ => Err(unknown_variant(family, variant)),
        },
        4 => match variant {
            1 => Ok(CastTarget::Boolean(BooleanType::Bool)),
            _ => Err(unknown_variant(family, variant)),
        },
        _ => Err(unknown_variant(family, variant)),
    }
}

/// The temporal type of the columnar library in which a temporal target is
/// kept: its own where the columnar library has it, and for a datetime in
/// seconds the datetime in milliseconds, the coarsest there is.
pub open spec fn stored_temporal_spec(target: TemporalType) -> StoredTemporalType {
    match target {
        TemporalType::Date => StoredTemporalType::Date,
        TemporalType::Time => StoredTemporalType::Time,
        TemporalType::DatetimeNanoseconds => StoredTemporalType::DatetimeNanoseconds,
        TemporalType::DatetimeMicroseconds => StoredTemporalType::DatetimeMicroseconds,
        TemporalType::DatetimeMilliseconds => StoredTemporalType::DatetimeMilliseconds,
        TemporalType::DatetimeSeconds => StoredTemporalType::DatetimeMilliseconds,
    }
}

/// The temporal type of the columnar library in which a temporal target is
/// kept.
#[verifier::when_used_as_spec(stored_temporal_spec)]
pub fn stored_temporal(target: TemporalType) -> (stored: StoredTemporalType)
    ensures
        stored == stored_temporal_spec(target),
{
    match target {
        TemporalType::Date => StoredTemporalType::Date,
        TemporalType::Time => StoredTemporalType::Time,
        TemporalType::DatetimeNanoseconds => StoredTemporalType::DatetimeNanoseconds,
        TemporalType::DatetimeMicroseconds => StoredTemporalType::DatetimeMicroseconds,
        TemporalType::DatetimeMilliseconds => StoredTemporalType::DatetimeMilliseconds,
        TemporalType::DatetimeSeconds => StoredTemporalType::DatetimeMilliseconds,
    }
}

/// The columnar type to which a cast target is cast. Every target but one
/// has a columnar type of its own; a datetime in seconds is cast to the
/// columnar type of a datetime in milliseconds.
pub open spec fn target_data_type(target: CastTarget) -> DataType {
    match target {
        CastTarget::Integer(t) => integer_data_type(t),
        CastTarget::Float(t) => float_data_type(t),
        CastTarget::String(t) => string_data_type(t),
        CastTarget::Temporal(t) => temporal_data_type(stored_temporal_spec(t)),
        CastTarget::Boolean(t) => boolean_data_type(t),
    }
}

/// A cast to a datetime in seconds and a cast to a datetime in milliseconds
/// are casts to the same columnar type.
pub proof fn lemma_seconds_are_kept_as_milliseconds()
    ensures
        target_data_type(CastTarget::Temporal(TemporalType::DatetimeSeconds)) == target_data_type(
            CastTarget::Temporal(TemporalType::DatetimeMilliseconds),
        ),
{
}

/// Builds the columnar type to which a cast target is cast.
pub fn data_type_of(target: CastTarget) -> (d: DataType)
    ensures
        d == target_data_type(target),
{
    match target {
        CastTarget::Integer(t) => integer_type(t),
        CastTarget::Float(t) => float_type(t),
        CastTarget::String(t) => string_type(t),
        CastTarget::Temporal(t) => temporal_type(stored_temporal(t)),
        CastTarget::Boolean(t) => boolean_type(t),
    }
}

/// Each type code that names a target names a target of its own: two codes
/// that decode to the same target are the same code. Two targets may still
/// be cast to one columnar type, as `lemma_seconds_are_kept_as_milliseconds`
/// says.
pub proof fn lemma_type_codes_are_distinct(a: u32, b: u32)
    requires
        cast_target_of(type_family(a), type_variant(a)) is Some,
        cast_target_of(type_family(a), type_variant(a)) == cast_target_of(
            type_family(b),
            type_variant(b),
        ),
    ensures
        a == b,
{
    assert(a == type_family(a) * 0x1_0000 + type_variant(a));
    assert(b == type_family(b) * 0x1_0000 + type_variant(b));
}

} // verus!
