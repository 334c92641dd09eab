use vstd::prelude::*;

use crate::json::{Json, JsonNumber};

verus! {

/// A 64-bit IEEE-754 binary float, held as its bit pattern.
#[derive(Clone, Copy, Debug, PartialEq, Eq, Structural)]
pub struct Float64 {
    pub bits: u64,
}

/// Why a value could not be read as a lenient decimal.
#[derive(Clone, Copy, Debug, PartialEq, Eq, Structural)]
pub enum NumberError {
    /// A JSON number with no 64-bit float value.
    InvalidNumber,
    /// A JSON string that does not read as a decimal float.
    NotANumber,
    /// Neither a JSON number nor a JSON string.
    WrongType,
}

/// The bits of the float that `str::parse` reads from a text, or none where
/// it reads none.
pub uninterp spec fn decimal_text_bits(s: Seq<char>) -> Option<u64>;

/// Relies on `str::parse` into a 64-bit float; the result is that float's
/// bits. `Value::as_f64` of serde_json on a null is a none of the float's
/// type: joined with `or`, it changes nothing and fixes the type to parse into.
#[verifier::external_body]
fn parse_decimal_text(s: &str) -> (r: Option<u64>)
    ensures
        r == decimal_text_bits(s@),
{
    s.parse().ok().or(serde_json::Value::Null.as_f64()).map(|x| x.to_bits())
}

/// What a JSON value reads as under the lenient rule: a number gives its
/// float value, a string the float it spells, anything else fails.
pub open spec fn decimal_of(v: Json) -> Result<Float64, NumberError> {
    match v {
        Json::Number(n) => match n.float_bits {
            Some(b) => Ok(Float64 { bits: b }),
            None => Err(NumberError::InvalidNumber),
        },
        Json::Str(s) => match decimal_text_bits(s@) {
            Some(b) => Ok(Float64 { bits: b }),
            None => Err(NumberError::NotANumber),
        },
        _ => Err(NumberError::WrongType),
    }
}

/// Reads a JSON value as a decimal quantity that may come as a JSON number
/// or as a JSON string holding a decimal number.
pub fn de_decimal_number(v: &Json) -> (r: Result<Float64, NumberError>)
    ensures
        r == decimal_of(*v),
{
    match v {
        Json::Number(n) => match n.float_bits {
            Some(b) => Ok(Float64 { bits: b }),
            None => Err(NumberError::InvalidNumber),
        },
        Json::Str(s) => match parse_decimal_text(s.as_str()) {
            Some(b) => Ok(Float64 { bits: b }),
            None => Err(NumberError::NotANumber),
        },
        _ => Err(NumberError::WrongType),
    }
}

/// A JSON number decodes to the float it equals.
pub proof fn lemma_number_decodes_to_its_value(n: JsonNumber, bits: u64)
    requires
        n.float_bits == Some(bits),
    ensures
        decimal_of(Json::Number(n)) == Ok::<Float64, NumberError>(Float64 { bits }),
{
}

/// A JSON string whose text parses as a float decodes to that float.
pub proof fn lemma_decimal_string_decodes_to_its_value(v: Json, bits: u64)
    requires
        v is Str,
        decimal_text_bits(v->Str_0@) == Some(bits),
    ensures
        decimal_of(v) == Ok::<Float64, NumberError>(Float64 { bits }),
{
}

/// A JSON boolean or null is never read as a decimal.
pub proof fn lemma_bool_or_null_is_wrong_type(v: Json)
    requires
        v is Bool || v is Null,
    ensures
        decimal_of(v) == Err::<Float64, NumberError>(NumberError::WrongType),
{
}

} // verus!
