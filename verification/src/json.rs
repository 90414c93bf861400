//! The boundary to `serde_json`: a mathematical model of a parsed document,
//! the contracts assumed of the few `serde_json` functions the library calls,
//! and, verified, the reading of one member of a JSON object and its
//! decoding as an optional flag, integer or double.

use vstd::prelude::*;

verus! {

/// `serde_json::Value`, a parsed JSON value. Verified code sees nothing
/// inside it: what it holds is spoken of through [`json_view`].
#[verifier::external_type_specification]
#[verifier::external_body]
pub struct ExValue(serde_json::Value);

/// `serde_json::Error`, why a text did not parse. The library carries it no
/// further than the match that turns it into a [`ParseError`].
#[verifier::external_type_specification]
#[verifier::external_body]
pub struct ExError(serde_json::Error);

/// A JSON number as the library reads it.
pub struct JsonNumber {
    /// The number itself when the document wrote it as an integer that
    /// `serde_json` keeps exactly (anything from `i64::MIN` to `u64::MAX`).
    pub integer: Option<int>,
    /// The bit pattern of the IEEE 754 double that stands for the number.
    pub double_bits: u64,
}

/// The model of a `serde_json::Value`: its variant, and as much of its
/// payload as the library reads.
pub enum Json {
    Null,
    Bool(bool),
    Number(JsonNumber),
    Text,
    Array,
    Object(Map<Seq<char>, Json>),
}

/// The model of a parsed value.
pub uninterp spec fn json_view(value: serde_json::Value) -> Json;

/// What `serde_json` makes of a text: the model of the document, or `None`
/// where the text is not one JSON value.
pub uninterp spec fn json_parse(text: Seq<char>) -> Option<Json>;

/// `serde_json::from_str` at type `serde_json::Value`. Assumed: the outcome
/// is a function of the text alone, named by [`json_parse`].
#[verifier::external_body]
pub(crate) fn parse_document(text: &str) -> (r: Result<serde_json::Value, serde_json::Error>)
    ensures
        match r {
            Ok(value) => json_parse(text@) == Some(json_view(value)),
            Err(_) => json_parse(text@) is None,
        },
{
    serde_json::from_str::<serde_json::Value>(text)
}

/// `serde_json::Value::get` with a string key. Assumed: it finds the member
/// of that name when the value is an object that has one, and nothing
/// otherwise.
#[verifier::external_body]
pub(crate) fn member<'a>(doc: &'a serde_json::Value, key: &str) -> (r: Option<
    &'a serde_json::Value,
>)
    ensures
        match r {
            Some(found) => json_view(*doc) matches Json::Object(members) && members.contains_key(
                key@,
            ) && members[key@] == json_view(*found),
            None => !(json_view(*doc) matches Json::Object(members) && members.contains_key(key@)),
        },
{
    doc.get(key)
}

/// `serde_json::Value::as_f64`, the double handed on as its bit pattern.
/// Assumed: every number has a double, and nothing else has.
#[verifier::external_body]
pub(crate) fn double_bits(value: &serde_json::Value) -> (r: Option<u64>)
    ensures
        r == match json_view(*value) {
            Json::Number(number) => Some(number.double_bits),
            _ => None,
        },
{
    value.as_f64().map(|double| double.to_bits())
}

/// Assumed of `serde_json::Value::is_object`: it tells objects from the rest.
pub assume_specification[ serde_json::Value::is_object ](value: &serde_json::Value) -> (r: bool)
    ensures
        r == (json_view(*value) is Object),
;

/// Assumed of `serde_json::Value::is_null`: it tells `null` from the rest.
pub assume_specification[ serde_json::Value::is_null ](value: &serde_json::Value) -> (r: bool)
    ensures
        r == (json_view(*value) is Null),
;

/// Assumed of `serde_json::Value::as_bool`: the flag of a boolean, and
/// nothing of any other value.
pub assume_specification[ serde_json::Value::as_bool ](value: &serde_json::Value) -> (r: Option<
    bool,
>)
    ensures
        r == match json_view(*value) {
            Json::Bool(flag) => Some(flag),
            _ => None,
        },
;

/// Assumed of `serde_json::Value::as_i64`: the integer of a number that was
/// written as one and fits `i64`, and nothing of any other value.
pub assume_specification[ serde_json::Value::as_i64 ](value: &serde_json::Value) -> (r: Option<
    i64,
>)
    ensures
        r == match json_view(*value) {
            Json::Number(number) => match number.integer {
                Some(n) => if i64::MIN <= n <= i64::MAX {
                    Some(n as i64)
                } else {
                    None
                },
                None => None,
            },
            _ => None,
        },
;

/// One member of a JSON object, as a schema reads it.
#[derive(Clone, Copy, Debug, PartialEq, Eq)]
pub enum JsonField {
    /// The object has no member of that name.
    Absent,
    /// The member is `null`.
    Null,
    /// The member is `true` or `false`.
    Bool(bool),
    /// The member is a number: its value as an `i64` where it was written as
    /// an integer that fits, and the bit pattern of its double.
    Number { integer: Option<i64>, double_bits: u64 },
    /// The member is a string, an array or an object.
    Other,
}

/// How a schema reads a value.
pub open spec fn field_of_value(value: Json) -> JsonField {
    match value {
        Json::Null => JsonField::Null,
        Json::Bool(flag) => JsonField::Bool(flag),
        Json::Number(number) => JsonField::Number {
            integer: match number.integer {
                Some(n) => if i64::MIN <= n <= i64::MAX {
                    Some(n as i64)
                } else {
                    None
                },
                None => None,
            },
            double_bits: number.double_bits,
        },
        _ => JsonField::Other,
    }
}

/// How a schema reads the member `key` of a document.
pub open spec fn field_of(doc: Json, key: Seq<char>) -> JsonField {
    match doc {
        Json::Object(members) => if members.contains_key(key) {
            field_of_value(members[key])
        } else {
            JsonField::Absent
        },
        _ => JsonField::Absent,
    }
}

/// Reads the member `key` of a parsed document.
pub(crate) fn read_field(doc: &serde_json::Value, key: &str) -> (field: JsonField)
    ensures
        field == field_of(json_view(*doc), key@),
{
    match member(doc, key) {
        None => JsonField::Absent,
        Some(found) => {
            if found.is_null() {
                JsonField::Null
            } else {
                match found.as_bool() {
                    Some(flag) => JsonField::Bool(flag),
                    None => match double_bits(found) {
                        Some(bits) => JsonField::Number {
                            integer: found.as_i64(),
                            double_bits: bits,
                        },
                        None => JsonField::Other,
                    },
                }
            }
        },
    }
}

/// Why a text was not accepted as a record of the expected shape.
#[derive(Clone, Copy, Debug, PartialEq, Eq)]
pub enum ParseError {
    /// The text is not one JSON value.
    Syntax,
    /// The text is JSON, but not an object.
    NotAnObject,
    /// A member that the record reads holds a value of the wrong kind.
    InvalidField,
}

impl JsonField {
    /// The member as an optional flag: unset when absent or `null`, the flag
    /// when a boolean, an error otherwise.
    pub open spec fn spec_optional_bool(self) -> Result<Option<bool>, ParseError> {
        match self {
            JsonField::Absent | JsonField::Null => Ok(None),
            JsonField::Bool(flag) => Ok(Some(flag)),
            _ => Err(ParseError::InvalidField),
        }
    }

    /// Decodes the member as an optional flag.
    #[verifier::when_used_as_spec(spec_optional_bool)]
    pub fn optional_bool(self) -> (r: Result<Option<bool>, ParseError>)
        ensures
            r == self.spec_optional_bool(),
    {
        match self {
            JsonField::Absent => Ok(None),
            JsonField::Null => Ok(None),
            JsonField::Bool(flag) => Ok(Some(flag)),
            _ => Err(ParseError::InvalidField),
        }
    }

    /// The member as an optional 32-bit integer: unset when absent or
    /// `null`, the integer when a number written as an integer in the range
    /// of `i32`, an error otherwise.
    pub open spec fn spec_optional_i32(self) -> Result<Option<i32>, ParseError> {
        match self {
            JsonField::Absent | JsonField::Null => Ok(None),
            JsonField::Number { integer: Some(n), .. } => if i32::MIN <= n <= i32::MAX {
                Ok(Some(n as i32))
            } else {
                Err(ParseError::InvalidField)
            },
            _ => Err(ParseError::InvalidField),
        }
    }

    /// Decodes the member as an optional 32-bit integer.
    #[verifier::when_used_as_spec(spec_optional_i32)]
    pub fn optional_i32(self) -> (r: Result<Option<i32>, ParseError>)
        ensures
            r == self.spec_optional_i32(),
    {
        match self {
            JsonField::Absent => Ok(None),
            JsonField::Null => Ok(None),
            JsonField::Number { integer: Some(n), .. } => {
                if -2147483648 <= n && n <= 2147483647 {
                    Ok(Some(n as i32))
                } else {
                    Err(ParseError::InvalidField)
                }
            },
            _ => Err(ParseError::InvalidField),
        }
    }

    /// The member as an optional double, carried as its bit pattern: unset
    /// when absent or `null`, the double of any number, an error otherwise.
    pub open spec fn spec_optional_double(self) -> Result<Option<u64>, ParseError> {
        match self {
            JsonField::Absent | JsonField::Null => Ok(None),
            JsonField::Number { double_bits, .. } => Ok(Some(double_bits)),
            _ => Err(ParseError::InvalidField),
        }
    }

    /// Decodes the member as an optional double.
    #[verifier::when_used_as_spec(spec_optional_double)]
    pub fn optional_double(self) -> (r: Result<Option<u64>, ParseError>)
        ensures
            r == self.spec_optional_double(),
    {
        match self {
            JsonField::Absent => Ok(None),
            JsonField::Null => Ok(None),
            JsonField::Number { double_bits, .. } => Ok(Some(double_bits)),
            _ => Err(ParseError::InvalidField),
        }
    }
}

} // verus!
