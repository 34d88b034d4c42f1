//! The tolerant field decoder: the API emits numeric fields sometimes
//! as JSON numbers and sometimes as numeric strings, and its boolean
//! status flag only as the string `"0"` or `"1"`.  Each coercion here
//! accepts exactly the shapes the API is known to emit and rejects
//! everything else.
use vstd::prelude::*;
use vstd::string::StringExecFns;

use crate::json::JsonValue;
use crate::json::str_eq;
use crate::text::parse_u16_text;
use crate::text::parse_usize_text;
use crate::text::uint_text_ok;
use crate::text::uint_text_val;

verus! {

/// Why a response body failed to decode into its typed shape.
#[derive(Debug, Clone, PartialEq, Eq)]
pub enum DecodeError {
    /// The body is not valid JSON.
    Syntax,
    /// A JSON object was expected.
    ExpectedObject,
    /// A required member is absent.
    MissingField,
    /// A plain string field held something else.
    ExpectedString,
    /// An integer field held something other than a non-negative
    /// integer number.
    ExpectedInteger,
    /// An array field held something else.
    ExpectedArray,
    /// A numeric field held neither a number nor a numeric string.
    NumberOrNumericString,
    /// A text field held neither a number nor a string.
    NumberOrString,
    /// A status flag held something other than the string `"0"` or `"1"`.
    StatusString,
    /// An enumerated field held none of its admitted words.
    UnknownVariant,
    /// An address field did not hold a dotted-quad address.
    InvalidIpAddress,
}

impl DecodeError {
    pub open spec fn spec_message(&self) -> Seq<char> {
        match self {
            DecodeError::Syntax => "invalid JSON"@,
            DecodeError::ExpectedObject => "expected a JSON object"@,
            DecodeError::MissingField => "missing field"@,
            DecodeError::ExpectedString => "expected a string"@,
            DecodeError::ExpectedInteger => "expected an integer"@,
            DecodeError::ExpectedArray => "expected an array"@,
            DecodeError::NumberOrNumericString => "number or string parsed to number"@,
            DecodeError::NumberOrString => "a number or string"@,
            DecodeError::StatusString => "string 0 or 1"@,
            DecodeError::UnknownVariant => "unknown variant"@,
            DecodeError::InvalidIpAddress => "invalid IP address syntax"@,
        }
    }

    /// Human-readable statement of what was expected.
    pub fn message(&self) -> (r: &'static str)
        ensures
            r@ == self.spec_message(),
    {
        match self {
            DecodeError::Syntax => "invalid JSON",
            DecodeError::ExpectedObject => "expected a JSON object",
            DecodeError::MissingField => "missing field",
            DecodeError::ExpectedString => "expected a string",
            DecodeError::ExpectedInteger => "expected an integer",
            DecodeError::ExpectedArray => "expected an array",
            DecodeError::NumberOrNumericString => "number or string parsed to number",
            DecodeError::NumberOrString => "a number or string",
            DecodeError::StatusString => "string 0 or 1",
            DecodeError::UnknownVariant => "unknown variant",
            DecodeError::InvalidIpAddress => "invalid IP address syntax",
        }
    }
}

/// A `Result` of a decoded string, with the string abstracted to its
/// characters.
pub open spec fn text_result_view(r: Result<String, DecodeError>) -> Result<
    Seq<char>,
    DecodeError,
> {
    match r {
        Ok(s) => Ok(s@),
        Err(e) => Err(e),
    }
}

/// Coercion of one JSON value to `u16`: a number is read through its
/// canonical text, a string through its own characters; both must
/// parse as an unsigned 16-bit integer, and every other shape is
/// rejected.
pub open spec fn spec_to_u16(v: JsonValue) -> Result<u16, DecodeError> {
    match v {
        JsonValue::Number(t) => if uint_text_ok(t@, u16::MAX as nat) {
            Ok(uint_text_val(t@) as u16)
        } else {
            Err(DecodeError::NumberOrNumericString)
        },
        JsonValue::Text(t) => if uint_text_ok(t@, u16::MAX as nat) {
            Ok(uint_text_val(t@) as u16)
        } else {
            Err(DecodeError::NumberOrNumericString)
        },
        _ => Err(DecodeError::NumberOrNumericString),
    }
}

/// Decodes a `u16` field from a number or a numeric string.
pub fn to_u16(v: &JsonValue) -> (r: Result<u16, DecodeError>)
    ensures
        r == spec_to_u16(*v),
{
    match v {
        JsonValue::Number(t) => match parse_u16_text(t.as_str()) {
            Some(x) => Ok(x),
            None => Err(DecodeError::NumberOrNumericString),
        },
        JsonValue::Text(t) => match parse_u16_text(t.as_str()) {
            Some(x) => Ok(x),
            None => Err(DecodeError::NumberOrNumericString),
        },
        _ => Err(DecodeError::NumberOrNumericString),
    }
}

/// Coercion of one JSON value to `usize`, as `spec_to_u16` but with
/// the `usize` range.
pub open spec fn spec_to_usize(v: JsonValue) -> Result<usize, DecodeError> {
    match v {
        JsonValue::Number(t) => if uint_text_ok(t@, usize::MAX as nat) {
            Ok(uint_text_val(t@) as usize)
        } else {
            Err(DecodeError::NumberOrNumericString)
        },
        JsonValue::Text(t) => if uint_text_ok(t@, usize::MAX as nat) {
            Ok(uint_text_val(t@) as usize)
        } else {
            Err(DecodeError::NumberOrNumericString)
        },
        _ => Err(DecodeError::NumberOrNumericString),
    }
}

/// Decodes a `usize` field from a number or a numeric string.
pub fn to_usize(v: &JsonValue) -> (r: Result<usize, DecodeError>)
    ensures
        r == spec_to_usize(*v),
{
    match v {
        JsonValue::Number(t) => match parse_usize_text(t.as_str()) {
            Some(x) => Ok(x),
            None => Err(DecodeError::NumberOrNumericString),
        },
        JsonValue::Text(t) => match parse_usize_text(t.as_str()) {
            Some(x) => Ok(x),
            None => Err(DecodeError::NumberOrNumericString),
        },
        _ => Err(DecodeError::NumberOrNumericString),
    }
}

/// Coercion of one JSON value to text: a number becomes its canonical
/// decimal text, a string stays itself, everything else is rejected.
pub open spec fn spec_to_text(v: JsonValue) -> Result<Seq<char>, DecodeError> {
    match v {
        JsonValue::Number(t) => Ok(t@),
        JsonValue::Text(t) => Ok(t@),
        _ => Err(DecodeError::NumberOrString),
    }
}

/// Decodes a text field from a number or a string.
pub fn to_string(v: &JsonValue) -> (r: Result<String, DecodeError>)
    ensures
        text_result_view(r) == spec_to_text(*v),
{
    match v {
        JsonValue::Number(t) => Ok(t.clone()),
        JsonValue::Text(t) => Ok(t.clone()),
        _ => Err(DecodeError::NumberOrString),
    }
}

/// Coercion of the `active` status flag: only the strings `"0"` and
/// `"1"` are accepted, as `false` and `true`; any other string, and
/// any non-string value — an actual boolean or number included — is
/// rejected.
pub open spec fn spec_parse_proxy_status(v: JsonValue) -> Result<bool, DecodeError> {
    match v {
        JsonValue::Text(t) => if t@ == "0"@ {
            Ok(false)
        } else if t@ == "1"@ {
            Ok(true)
        } else {
            Err(DecodeError::StatusString)
        },
        _ => Err(DecodeError::StatusString),
    }
}

/// Decodes the proxy-active flag from the strings `"0"` and `"1"`.
pub fn parse_proxy_status(v: &JsonValue) -> (r: Result<bool, DecodeError>)
    ensures
        r == spec_parse_proxy_status(*v),
{
    match v {
        JsonValue::Text(t) => {
            if str_eq(t.as_str(), "0") {
                Ok(false)
            } else if str_eq(t.as_str(), "1") {
                Ok(true)
            } else {
                Err(DecodeError::StatusString)
            }
        },
        _ => Err(DecodeError::StatusString),
    }
}

} // verus!
