//! Decoding checked JSON field values into the Rust types that publish MCP
//! schemas: text, booleans, integers, raw JSON, optional values, lists,
//! tuples, boxes and ranges. Text, booleans, integers, characters and unit
//! are read by `serde_json`, whose error messages a failure carries, as do the
//! failures on values that are not lists or tuples of the right length.

use crate::json::{
    lemma_array_view, map_get, map_remove, Json, JsonMap, JsonNumber, JsonValue, NumberModel,
};
use crate::json_text::serde_of_json;
use crate::text::concat3;
use crate::tool_error::{McpToolError, ToolErrorModel};
use crate::typed::{McpAny, McpJsonDecode, McpRange};
use vstd::prelude::*;
use vstd::string::*;

verus! {

/// The decode failure of `field` with the given message.
pub open spec fn decode_failure(field: Seq<char>, expected: Seq<char>) -> ToolErrorModel {
    ToolErrorModel::DecodeField { field, message: expected }
}

/// The integer a JSON value holds when it is an integer in `[min, max]`.
pub open spec fn integer_in(v: Json, min: int, max: int) -> Option<int> {
    match v {
        Json::Number(NumberModel::PosInt(n)) => if min <= n <= max {
            Some(n as int)
        } else {
            None
        },
        Json::Number(NumberModel::NegInt(n)) => if min <= n <= max {
            Some(n as int)
        } else {
            None
        },
        _ => None,
    }
}

/// Whether a value is a number kept as its JSON text (not an integer).
pub open spec fn is_text_number(v: Json) -> bool {
    v matches Json::Number(NumberModel::Float(_))
}

/// The message `serde_json::from_value::<String>` reports for a value it rejects.
pub uninterp spec fn serde_string_error(value: Json) -> Seq<char>;

/// `serde_json::from_value::<String>` on the `serde_json` form of a value, with a
/// failure turned into its error's message. Claimed: on a value other than a
/// number kept as text, it succeeds exactly on strings, with that string; a failure carries
/// `serde_string_error` of the value. What it does with a number kept as
/// text is left unsaid.
#[verifier::external_body]
fn serde_string(value: &JsonValue) -> (r: Result<String, String>)
    ensures
        !is_text_number(value@) ==> (match value@ {
            Json::String(s) => r matches Ok(x) && x@ == s,
            _ => r is Err,
        }),
        r matches Err(m) ==> m@ == serde_string_error(value@),
{
    match serde_json::from_value::<String>(serde_of_json(value)) {
        Ok(x) => Ok(x),
        Err(e) => Err(e.to_string()),
    }
}

impl McpJsonDecode for String {
    fn decode_json(field: &str, value: JsonValue) -> (r: Result<Self, McpToolError>)
        ensures
            !is_text_number(value@) ==> (match value@ {
            Json::String(s) => r matches Ok(x) && x@ == s,
            _ => r matches Err(e) && e@ == decode_failure(field@, serde_string_error(value@)),
        }),
            r matches Err(e) ==> e@ == decode_failure(field@, serde_string_error(value@)),
    {
        match serde_string(&value) {
            Ok(x) => Ok(x),
            Err(m) => Err(McpToolError::decode(field, m.as_str())),
        }
    }
}

/// The message `serde_json::from_value::<bool>` reports for a value it rejects.
pub uninterp spec fn serde_bool_error(value: Json) -> Seq<char>;

/// `serde_json::from_value::<bool>` on the `serde_json` form of a value, with a
/// failure turned into its error's message. Claimed: on a value other than a
/// number kept as text, it succeeds exactly on booleans, with that boolean; a failure carries
/// `serde_bool_error` of the value. What it does with a number kept as
/// text is left unsaid.
#[verifier::external_body]
fn serde_bool(value: &JsonValue) -> (r: Result<bool, String>)
    ensures
        !is_text_number(value@) ==> (match value@ {
            Json::Bool(b) => r matches Ok(x) && x == b,
            _ => r is Err,
        }),
        r matches Err(m) ==> m@ == serde_bool_error(value@),
{
    match serde_json::from_value::<bool>(serde_of_json(value)) {
        Ok(x) => Ok(x),
        Err(e) => Err(e.to_string()),
    }
}

impl McpJsonDecode for bool {
    fn decode_json(field: &str, value: JsonValue) -> (r: Result<Self, McpToolError>)
        ensures
            !is_text_number(value@) ==> (match value@ {
            Json::Bool(b) => r matches Ok(x) && x == b,
            _ => r matches Err(e) && e@ == decode_failure(field@, serde_bool_error(value@)),
        }),
            r matches Err(e) ==> e@ == decode_failure(field@, serde_bool_error(value@)),
    {
        match serde_bool(&value) {
            Ok(x) => Ok(x),
            Err(m) => Err(McpToolError::decode(field, m.as_str())),
        }
    }
}

/// The message `serde_json::from_value::<u8>` reports for a value it rejects.
pub uninterp spec fn serde_u8_error(value: Json) -> Seq<char>;

/// `serde_json::from_value::<u8>` on the `serde_json` form of a value, with a
/// failure turned into its error's message. Claimed: on a value other than a
/// number kept as text, it succeeds exactly on integers in `u8`'s range, with that integer; a failure carries
/// `serde_u8_error` of the value. What it does with a number kept as
/// text is left unsaid.
#[verifier::external_body]
fn serde_u8(value: &JsonValue) -> (r: Result<u8, String>)
    ensures
        !is_text_number(value@) ==> (match integer_in(value@, 0, u8::MAX as int) {
            Some(n) => r matches Ok(x) && x == n,
            None => r is Err,
        }),
        r matches Err(m) ==> m@ == serde_u8_error(value@),
{
    match serde_json::from_value::<u8>(serde_of_json(value)) {
        Ok(x) => Ok(x),
        Err(e) => Err(e.to_string()),
    }
}

impl McpJsonDecode for u8 {
    fn decode_json(field: &str, value: JsonValue) -> (r: Result<Self, McpToolError>)
        ensures
            !is_text_number(value@) ==> (match integer_in(value@, 0, u8::MAX as int) {
            Some(n) => r matches Ok(x) && x == n,
            None => r matches Err(e) && e@ == decode_failure(field@, serde_u8_error(value@)),
        }),
            r matches Err(e) ==> e@ == decode_failure(field@, serde_u8_error(value@)),
    {
        match serde_u8(&value) {
            Ok(x) => Ok(x),
            Err(m) => Err(McpToolError::decode(field, m.as_str())),
        }
    }
}

/// The message `serde_json::from_value::<u16>` reports for a value it rejects.
pub uninterp spec fn serde_u16_error(value: Json) -> Seq<char>;

/// `serde_json::from_value::<u16>` on the `serde_json` form of a value, with a
/// failure turned into its error's message. Claimed: on a value other than a
/// number kept as text, it succeeds exactly on integers in `u16`'s range, with that integer; a failure carries
/// `serde_u16_error` of the value. What it does with a number kept as
/// text is left unsaid.
#[verifier::external_body]
fn serde_u16(value: &JsonValue) -> (r: Result<u16, String>)
    ensures
        !is_text_number(value@) ==> (match integer_in(value@, 0, u16::MAX as int) {
            Some(n) => r matches Ok(x) && x == n,
            None => r is Err,
        }),
        r matches Err(m) ==> m@ == serde_u16_error(value@),
{
    match serde_json::from_value::<u16>(serde_of_json(value)) {
        Ok(x) => Ok(x),
        Err(e) => Err(e.to_string()),
    }
}

impl McpJsonDecode for u16 {
    fn decode_json(field: &str, value: JsonValue) -> (r: Result<Self, McpToolError>)
        ensures
            !is_text_number(value@) ==> (match integer_in(value@, 0, u16::MAX as int) {
            Some(n) => r matches Ok(x) && x == n,
            None => r matches Err(e) && e@ == decode_failure(field@, serde_u16_error(value@)),
        }),
            r matches Err(e) ==> e@ == decode_failure(field@, serde_u16_error(value@)),
    {
        match serde_u16(&value) {
            Ok(x) => Ok(x),
            Err(m) => Err(McpToolError::decode(field, m.as_str())),
        }
    }
}

/// The message `serde_json::from_value::<u32>` reports for a value it rejects.
pub uninterp spec fn serde_u32_error(value: Json) -> Seq<char>;

/// `serde_json::from_value::<u32>` on the `serde_json` form of a value, with a
/// failure turned into its error's message. Claimed: on a value other than a
/// number kept as text, it succeeds exactly on integers in `u32`'s range, with that integer; a failure carries
/// `serde_u32_error` of the value. What it does with a number kept as
/// text is left unsaid.
#[verifier::external_body]
fn serde_u32(value: &JsonValue) -> (r: Result<u32, String>)
    ensures
        !is_text_number(value@) ==> (match integer_in(value@, 0, u32::MAX as int) {
            Some(n) => r matches Ok(x) && x == n,
            None => r is Err,
        }),
        r matches Err(m) ==> m@ == serde_u32_error(value@),
{
    match serde_json::from_value::<u32>(serde_of_json(value)) {
        Ok(x) => Ok(x),
        Err(e) => Err(e.to_string()),
    }
}

impl McpJsonDecode for u32 {
    fn decode_json(field: &str, value: JsonValue) -> (r: Result<Self, McpToolError>)
        ensures
            !is_text_number(value@) ==> (match integer_in(value@, 0, u32::MAX as int) {
            Some(n) => r matches Ok(x) && x == n,
            None => r matches Err(e) && e@ == decode_failure(field@, serde_u32_error(value@)),
        }),
            r matches Err(e) ==> e@ == decode_failure(field@, serde_u32_error(value@)),
    {
        match serde_u32(&value) {
            Ok(x) => Ok(x),
            Err(m) => Err(McpToolError::decode(field, m.as_str())),
        }
    }
}

/// The message `serde_json::from_value::<u64>` reports for a value it rejects.
pub uninterp spec fn serde_u64_error(value: Json) -> Seq<char>;

/// `serde_json::from_value::<u64>` on the `serde_json` form of a value, with a
/// failure turned into its error's message. Claimed: on a value other than a
/// number kept as text, it succeeds exactly on integers in `u64`'s range, with that integer; a failure carries
/// `serde_u64_error` of the value. What it does with a number kept as
/// text is left unsaid.
#[verifier::external_body]
fn serde_u64(value: &JsonValue) -> (r: Result<u64, String>)
    ensures
        !is_text_number(value@) ==> (match integer_in(value@, 0, u64::MAX as int) {
            Some(n) => r matches Ok(x) && x == n,
            None => r is Err,
        }),
        r matches Err(m) ==> m@ == serde_u64_error(value@),
{
    match serde_json::from_value::<u64>(serde_of_json(value)) {
        Ok(x) => Ok(x),
        Err(e) => Err(e.to_string()),
    }
}

impl McpJsonDecode for u64 {
    fn decode_json(field: &str, value: JsonValue) -> (r: Result<Self, McpToolError>)
        ensures
            !is_text_number(value@) ==> (match integer_in(value@, 0, u64::MAX as int) {
            Some(n) => r matches Ok(x) && x == n,
            None => r matches Err(e) && e@ == decode_failure(field@, serde_u64_error(value@)),
        }),
            r matches Err(e) ==> e@ == decode_failure(field@, serde_u64_error(value@)),
    {
        match serde_u64(&value) {
            Ok(x) => Ok(x),
            Err(m) => Err(McpToolError::decode(field, m.as_str())),
        }
    }
}

/// The message `serde_json::from_value::<u128>` reports for a value it rejects.
pub uninterp spec fn serde_u128_error(value: Json) -> Seq<char>;

/// `serde_json::from_value::<u128>` on the `serde_json` form of a value, with a
/// failure turned into its error's message. Claimed: on a value other than a
/// number kept as text, it succeeds exactly on integers in `u128`'s range, with that integer; a failure carries
/// `serde_u128_error` of the value. What it does with a number kept as
/// text is left unsaid.
#[verifier::external_body]
fn serde_u128(value: &JsonValue) -> (r: Result<u128, String>)
    ensures
        !is_text_number(value@) ==> (match integer_in(value@, 0, u128::MAX as int) {
            Some(n) => r matches Ok(x) && x == n,
            None => r is Err,
        }),
        r matches Err(m) ==> m@ == serde_u128_error(value@),
{
    match serde_json::from_value::<u128>(serde_of_json(value)) {
        Ok(x) => Ok(x),
        Err(e) => Err(e.to_string()),
    }
}

impl McpJsonDecode for u128 {
    fn decode_json(field: &str, value: JsonValue) -> (r: Result<Self, McpToolError>)
        ensures
            !is_text_number(value@) ==> (match integer_in(value@, 0, u128::MAX as int) {
            Some(n) => r matches Ok(x) && x == n,
            None => r matches Err(e) && e@ == decode_failure(field@, serde_u128_error(value@)),
        }),
            r matches Err(e) ==> e@ == decode_failure(field@, serde_u128_error(value@)),
    {
        match serde_u128(&value) {
            Ok(x) => Ok(x),
            Err(m) => Err(McpToolError::decode(field, m.as_str())),
        }
    }
}

/// The message `serde_json::from_value::<usize>` reports for a value it rejects.
pub uninterp spec fn serde_usize_error(value: Json) -> Seq<char>;

/// `serde_json::from_value::<usize>` on the `serde_json` form of a value, with a
/// failure turned into its error's message. Claimed: on a value other than a
/// number kept as text, it succeeds exactly on integers in `usize`'s range, with that integer; a failure carries
/// `serde_usize_error` of the value. What it does with a number kept as
/// text is left unsaid.
#[verifier::external_body]
fn serde_usize(value: &JsonValue) -> (r: Result<usize, String>)
    ensures
        !is_text_number(value@) ==> (match integer_in(value@, 0, usize::MAX as int) {
            Some(n) => r matches Ok(x) && x == n,
            None => r is Err,
        }),
        r matches Err(m) ==> m@ == serde_usize_error(value@),
{
    match serde_json::from_value::<usize>(serde_of_json(value)) {
        Ok(x) => Ok(x),
        Err(e) => Err(e.to_string()),
    }
}

impl McpJsonDecode for usize {
    fn decode_json(field: &str, value: JsonValue) -> (r: Result<Self, McpToolError>)
        ensures
            !is_text_number(value@) ==> (match integer_in(value@, 0, usize::MAX as int) {
            Some(n) => r matches Ok(x) && x == n,
            None => r matches Err(e) && e@ == decode_failure(field@, serde_usize_error(value@)),
        }),
            r matches Err(e) ==> e@ == decode_failure(field@, serde_usize_error(value@)),
    {
        match serde_usize(&value) {
            Ok(x) => Ok(x),
            Err(m) => Err(McpToolError::decode(field, m.as_str())),
        }
    }
}

/// The message `serde_json::from_value::<i8>` reports for a value it rejects.
pub uninterp spec fn serde_i8_error(value: Json) -> Seq<char>;

/// `serde_json::from_value::<i8>` on the `serde_json` form of a value, with a
/// failure turned into its error's message. Claimed: on a value other than a
/// number kept as text, it succeeds exactly on integers in `i8`'s range, with that integer; a failure carries
/// `serde_i8_error` of the value. What it does with a number kept as
/// text is left unsaid.
#[verifier::external_body]
fn serde_i8(value: &JsonValue) -> (r: Result<i8, String>)
    ensures
        !is_text_number(value@) ==> (match integer_in(value@, i8::MIN as int, i8::MAX as int) {
            Some(n) => r matches Ok(x) && x == n,
            None => r is Err,
        }),
        r matches Err(m) ==> m@ == serde_i8_error(value@),
{
    match serde_json::from_value::<i8>(serde_of_json(value)) {
        Ok(x) => Ok(x),
        Err(e) => Err(e.to_string()),
    }
}

impl McpJsonDecode for i8 {
    fn decode_json(field: &str, value: JsonValue) -> (r: Result<Self, McpToolError>)
        ensures
            !is_text_number(value@) ==> (match integer_in(value@, i8::MIN as int, i8::MAX as int) {
            Some(n) => r matches Ok(x) && x == n,
            None => r matches Err(e) && e@ == decode_failure(field@, serde_i8_error(value@)),
        }),
            r matches Err(e) ==> e@ == decode_failure(field@, serde_i8_error(value@)),
    {
        match serde_i8(&value) {
            Ok(x) => Ok(x),
            Err(m) => Err(McpToolError::decode(field, m.as_str())),
        }
    }
}

/// The message `serde_json::from_value::<i16>` reports for a value it rejects.
pub uninterp spec fn serde_i16_error(value: Json) -> Seq<char>;

/// `serde_json::from_value::<i16>` on the `serde_json` form of a value, with a
/// failure turned into its error's message. Claimed: on a value other than a
/// number kept as text, it succeeds exactly on integers in `i16`'s range, with that integer; a failure carries
/// `serde_i16_error` of the value. What it does with a number kept as
/// text is left unsaid.
#[verifier::external_body]
fn serde_i16(value: &JsonValue) -> (r: Result<i16, String>)
    ensures
        !is_text_number(value@) ==> (match integer_in(value@, i16::MIN as int, i16::MAX as int) {
            Some(n) => r matches Ok(x) && x == n,
            None => r is Err,
        }),
        r matches Err(m) ==> m@ == serde_i16_error(value@),
{
    match serde_json::from_value::<i16>(serde_of_json(value)) {
        Ok(x) => Ok(x),
        Err(e) => Err(e.to_string()),
    }
}

impl McpJsonDecode for i16 {
    fn decode_json(field: &str, value: JsonValue) -> (r: Result<Self, McpToolError>)
        ensures
            !is_text_number(value@) ==> (match integer_in(value@, i16::MIN as int, i16::MAX as int) {
            Some(n) => r matches Ok(x) && x == n,
            None => r matches Err(e) && e@ == decode_failure(field@, serde_i16_error(value@)),
        }),
            r matches Err(e) ==> e@ == decode_failure(field@, serde_i16_error(value@)),
    {
        match serde_i16(&value) {
            Ok(x) => Ok(x),
            Err(m) => Err(McpToolError::decode(field, m.as_str())),
        }
    }
}

/// The message `serde_json::from_value::<i32>` reports for a value it rejects.
pub uninterp spec fn serde_i32_error(value: Json) -> Seq<char>;

/// `serde_json::from_value::<i32>` on the `serde_json` form of a value, with a
/// failure turned into its error's message. Claimed: on a value other than a
/// number kept as text, it succeeds exactly on integers in `i32`'s range, with that integer; a failure carries
/// `serde_i32_error` of the value. What it does with a number kept as
/// text is left unsaid.
#[verifier::external_body]
fn serde_i32(value: &JsonValue) -> (r: Result<i32, String>)
    ensures
        !is_text_number(value@) ==> (match integer_in(value@, i32::MIN as int, i32::MAX as int) {
            Some(n) => r matches Ok(x) && x == n,
            None => r is Err,
        }),
        r matches Err(m) ==> m@ == serde_i32_error(value@),
{
    match serde_json::from_value::<i32>(serde_of_json(value)) {
        Ok(x) => Ok(x),
        Err(e) => Err(e.to_string()),
    }
}

impl McpJsonDecode for i32 {
    fn decode_json(field: &str, value: JsonValue) -> (r: Result<Self, McpToolError>)
        ensures
            !is_text_number(value@) ==> (match integer_in(value@, i32::MIN as int, i32::MAX as int) {
            Some(n) => r matches Ok(x) && x == n,
            None => r matches Err(e) && e@ == decode_failure(field@, serde_i32_error(value@)),
        }),
            r matches Err(e) ==> e@ == decode_failure(field@, serde_i32_error(value@)),
    {
        match serde_i32(&value) {
            Ok(x) => Ok(x),
            Err(m) => Err(McpToolError::decode(field, m.as_str())),
        }
    }
}

/// The message `serde_json::from_value::<i64>` reports for a value it rejects.
pub uninterp spec fn serde_i64_error(value: Json) -> Seq<char>;

/// `serde_json::from_value::<i64>` on the `serde_json` form of a value, with a
/// failure turned into its error's message. Claimed: on a value other than a
/// number kept as text, it succeeds exactly on integers in `i64`'s range, with that integer; a failure carries
/// `serde_i64_error` of the value. What it does with a number kept as
/// text is left unsaid.
#[verifier::external_body]
fn serde_i64(value: &JsonValue) -> (r: Result<i64, String>)
    ensures
        !is_text_number(value@) ==> (match integer_in(value@, i64::MIN as int, i64::MAX as int) {
            Some(n) => r matches Ok(x) && x == n,
            None => r is Err,
        }),
        r matches Err(m) ==> m@ == serde_i64_error(value@),
{
    match serde_json::from_value::<i64>(serde_of_json(value)) {
        Ok(x) => Ok(x),
        Err(e) => Err(e.to_string()),
    }
}

impl McpJsonDecode for i64 {
    fn decode_json(field: &str, value: JsonValue) -> (r: Result<Self, McpToolError>)
        ensures
            !is_text_number(value@) ==> (match integer_in(value@, i64::MIN as int, i64::MAX as int) {
            Some(n) => r matches Ok(x) && x == n,
            None => r matches Err(e) && e@ == decode_failure(field@, serde_i64_error(value@)),
        }),
            r matches Err(e) ==> e@ == decode_failure(field@, serde_i64_error(value@)),
    {
        match serde_i64(&value) {
            Ok(x) => Ok(x),
            Err(m) => Err(McpToolError::decode(field, m.as_str())),
        }
    }
}

/// The message `serde_json::from_value::<i128>` reports for a value it rejects.
pub uninterp spec fn serde_i128_error(value: Json) -> Seq<char>;

/// `serde_json::from_value::<i128>` on the `serde_json` form of a value, with a
/// failure turned into its error's message. Claimed: on a value other than a
/// number kept as text, it succeeds exactly on integers in `i128`'s range, with that integer; a failure carries
/// `serde_i128_error` of the value. What it does with a number kept as
/// text is left unsaid.
#[verifier::external_body]
fn serde_i128(value: &JsonValue) -> (r: Result<i128, String>)
    ensures
        !is_text_number(value@) ==> (match integer_in(value@, i128::MIN as int, i128::MAX as int) {
            Some(n) => r matches Ok(x) && x == n,
            None => r is Err,
        }),
        r matches Err(m) ==> m@ == serde_i128_error(value@),
{
    match serde_json::from_value::<i128>(serde_of_json(value)) {
        Ok(x) => Ok(x),
        Err(e) => Err(e.to_string()),
    }
}

impl McpJsonDecode for i128 {
    fn decode_json(field: &str, value: JsonValue) -> (r: Result<Self, McpToolError>)
        ensures
            !is_text_number(value@) ==> (match integer_in(value@, i128::MIN as int, i128::MAX as int) {
            Some(n) => r matches Ok(x) && x == n,
            None => r matches Err(e) && e@ == decode_failure(field@, serde_i128_error(value@)),
        }),
            r matches Err(e) ==> e@ == decode_failure(field@, serde_i128_error(value@)),
    {
        match serde_i128(&value) {
            Ok(x) => Ok(x),
            Err(m) => Err(McpToolError::decode(field, m.as_str())),
        }
    }
}

/// The message `serde_json::from_value::<isize>` reports for a value it rejects.
pub uninterp spec fn serde_isize_error(value: Json) -> Seq<char>;

/// `serde_json::from_value::<isize>` on the `serde_json` form of a value, with a
/// failure turned into its error's message. Claimed: on a value other than a
/// number kept as text, it succeeds exactly on integers in `isize`'s range, with that integer; a failure carries
/// `serde_isize_error` of the value. What it does with a number kept as
/// text is left unsaid.
#[verifier::external_body]
fn serde_isize(value: &JsonValue) -> (r: Result<isize, String>)
    ensures
        !is_text_number(value@) ==> (match integer_in(value@, isize::MIN as int, isize::MAX as int) {
            Some(n) => r matches Ok(x) && x == n,
            None => r is Err,
        }),
        r matches Err(m) ==> m@ == serde_isize_error(value@),
{
    match serde_json::from_value::<isize>(serde_of_json(value)) {
        Ok(x) => Ok(x),
        Err(e) => Err(e.to_string()),
    }
}

impl McpJsonDecode for isize {
    fn decode_json(field: &str, value: JsonValue) -> (r: Result<Self, McpToolError>)
        ensures
            !is_text_number(value@) ==> (match integer_in(value@, isize::MIN as int, isize::MAX as int) {
            Some(n) => r matches Ok(x) && x == n,
            None => r matches Err(e) && e@ == decode_failure(field@, serde_isize_error(value@)),
        }),
            r matches Err(e) ==> e@ == decode_failure(field@, serde_isize_error(value@)),
    {
        match serde_isize(&value) {
            Ok(x) => Ok(x),
            Err(m) => Err(McpToolError::decode(field, m.as_str())),
        }
    }
}

/// The message `serde_json::from_value::<char>` reports for a value it rejects.
pub uninterp spec fn serde_char_error(value: Json) -> Seq<char>;

/// `serde_json::from_value::<char>` on the `serde_json` form of a value, with a
/// failure turned into its error's message. Claimed: on a value other than a
/// number kept as text, it succeeds exactly on strings of one character, with that character; a failure carries
/// `serde_char_error` of the value. What it does with a number kept as
/// text is left unsaid.
#[verifier::external_body]
fn serde_char(value: &JsonValue) -> (r: Result<char, String>)
    ensures
        !is_text_number(value@) ==> (match value@ {
            Json::String(s) => if s.len() == 1 {
                r matches Ok(x) && x == s[0]
            } else {
                r is Err
            },
            _ => r is Err,
        }),
        r matches Err(m) ==> m@ == serde_char_error(value@),
{
    match serde_json::from_value::<char>(serde_of_json(value)) {
        Ok(x) => Ok(x),
        Err(e) => Err(e.to_string()),
    }
}

impl McpJsonDecode for char {
    fn decode_json(field: &str, value: JsonValue) -> (r: Result<Self, McpToolError>)
        ensures
            !is_text_number(value@) ==> (match value@ {
            Json::String(s) => if s.len() == 1 {
                r matches Ok(x) && x == s[0]
            } else {
                r matches Err(e) && e@ == decode_failure(field@, serde_char_error(value@))
            },
            _ => r matches Err(e) && e@ == decode_failure(field@, serde_char_error(value@)),
        }),
            r matches Err(e) ==> e@ == decode_failure(field@, serde_char_error(value@)),
    {
        match serde_char(&value) {
            Ok(x) => Ok(x),
            Err(m) => Err(McpToolError::decode(field, m.as_str())),
        }
    }
}

/// The message `serde_json::from_value::<()>` reports for a value it rejects.
pub uninterp spec fn serde_unit_error(value: Json) -> Seq<char>;

/// `serde_json::from_value::<()>` on the `serde_json` form of a value, with a
/// failure turned into its error's message. Claimed: on a value other than a
/// number kept as text, it succeeds exactly on `null`; a failure carries
/// `serde_unit_error` of the value. What it does with a number kept as
/// text is left unsaid.
#[verifier::external_body]
fn serde_unit(value: &JsonValue) -> (r: Result<(), String>)
    ensures
        !is_text_number(value@) ==> (match value@ {
            Json::Null => r is Ok,
            _ => r is Err,
        }),
        r matches Err(m) ==> m@ == serde_unit_error(value@),
{
    match serde_json::from_value::<()>(serde_of_json(value)) {
        Ok(x) => Ok(x),
        Err(e) => Err(e.to_string()),
    }
}

impl McpJsonDecode for () {
    fn decode_json(field: &str, value: JsonValue) -> (r: Result<Self, McpToolError>)
        ensures
            !is_text_number(value@) ==> (match value@ {
            Json::Null => r is Ok,
            _ => r matches Err(e) && e@ == decode_failure(field@, serde_unit_error(value@)),
        }),
            r matches Err(e) ==> e@ == decode_failure(field@, serde_unit_error(value@)),
    {
        match serde_unit(&value) {
            Ok(x) => Ok(x),
            Err(m) => Err(McpToolError::decode(field, m.as_str())),
        }
    }
}

/// The decimal `serde_json::from_value::<rust_decimal::Decimal>` reads from a
/// value it accepts.
pub uninterp spec fn serde_decimal_value(value: Json) -> rust_decimal::Decimal;

/// The message `serde_json::from_value::<rust_decimal::Decimal>` reports for a
/// value it rejects.
pub uninterp spec fn serde_decimal_error(value: Json) -> Seq<char>;

/// `serde_json::from_value::<rust_decimal::Decimal>` on the `serde_json` form
/// of a value, with a failure turned into its error's message. Claimed: an
/// integer always decodes; `null`, booleans, arrays and objects never do; what
/// it reads is `serde_decimal_value` of the value and a failure carries
/// `serde_decimal_error` of the value. Which strings and numbers kept as text
/// it accepts is left unsaid.
#[verifier::external_body]
fn serde_decimal(value: &JsonValue) -> (r: Result<rust_decimal::Decimal, String>)
    ensures
        (value@ is Number && !is_text_number(value@)) ==> r is Ok,
        (value@ is Null || value@ is Bool || value@ is Array || value@ is Object) ==> r is Err,
        r matches Ok(d) ==> d == serde_decimal_value(value@),
        r matches Err(m) ==> m@ == serde_decimal_error(value@),
{
    match serde_json::from_value::<rust_decimal::Decimal>(serde_of_json(value)) {
        Ok(d) => Ok(d),
        Err(e) => Err(e.to_string()),
    }
}

impl McpJsonDecode for rust_decimal::Decimal {
    fn decode_json(field: &str, value: JsonValue) -> (r: Result<Self, McpToolError>)
        ensures
            (value@ is Number && !is_text_number(value@)) ==> r is Ok,
            (value@ is Null || value@ is Bool || value@ is Array || value@ is Object) ==> r is Err,
            r matches Ok(d) ==> d == serde_decimal_value(value@),
            r matches Err(e) ==> e@ == decode_failure(field@, serde_decimal_error(value@)),
    {
        match serde_decimal(&value) {
            Ok(d) => Ok(d),
            Err(m) => Err(McpToolError::decode(field, m.as_str())),
        }
    }
}

/// What chrono's `NaiveDate::from_str` reports for a text: `None` when the
/// text parses as a date, else the message of its error.
pub uninterp spec fn naive_date_parse_error(text: Seq<char>) -> Option<Seq<char>>;

/// What chrono's `NaiveDateTime::from_str` reports for a text: `None` when
/// the text parses as a date and time, else the message of its error.
pub uninterp spec fn naive_date_time_parse_error(text: Seq<char>) -> Option<Seq<char>>;

/// The date chrono's `NaiveDate::from_str` reads from a text that parses.
pub uninterp spec fn naive_date_value(text: Seq<char>) -> chrono::NaiveDate;

/// The date and time chrono's `NaiveDateTime::from_str` reads from a text
/// that parses.
pub uninterp spec fn naive_date_time_value(text: Seq<char>) -> chrono::NaiveDateTime;

/// The text of a path built from an owned string.
pub uninterp spec fn path_text(path: std::path::PathBuf) -> Seq<char>;

/// chrono's `NaiveDate::from_str`, with a failure turned into its error's
/// message. Claimed: `Ok` exactly when `naive_date_parse_error` is `None`,
/// holding `naive_date_value` of the text; else the message is that error.
#[verifier::external_body]
fn parse_naive_date(text: &str) -> (r: Result<chrono::NaiveDate, String>)
    ensures
        match r {
            Ok(d) => naive_date_parse_error(text@) is None && d == naive_date_value(text@),
            Err(m) => naive_date_parse_error(text@) == Some(m@),
        },
{
    <chrono::NaiveDate as std::str::FromStr>::from_str(text).map_err(|error| error.to_string())
}

/// chrono's `NaiveDateTime::from_str`, with a failure turned into its
/// error's message. Claimed: `Ok` exactly when `naive_date_time_parse_error`
/// is `None`, holding `naive_date_time_value` of the text; else the message
/// is that error.
#[verifier::external_body]
fn parse_naive_date_time(text: &str) -> (r: Result<chrono::NaiveDateTime, String>)
    ensures
        match r {
            Ok(d) => naive_date_time_parse_error(text@) is None && d == naive_date_time_value(
                text@,
            ),
            Err(m) => naive_date_time_parse_error(text@) == Some(m@),
        },
{
    <chrono::NaiveDateTime as std::str::FromStr>::from_str(text).map_err(|error| error.to_string())
}

/// std's `PathBuf::from` on an owned string, which takes the string as the
/// path. Claimed: the path's text is the string.
#[verifier::external_body]
fn path_from_string(text: String) -> (r: std::path::PathBuf)
    ensures
        path_text(r) == text@,
{
    std::path::PathBuf::from(text)
}

/// A parsed value, or the decode failure of `field` carrying the parser's
/// message.
pub fn decoded_or_failure<T>(field: &str, parsed: Result<T, String>) -> (r: Result<
    T,
    McpToolError,
>)
    ensures
        match parsed {
            Ok(v) => r == Ok::<T, McpToolError>(v),
            Err(m) => r matches Err(e) && e@ == decode_failure(field@, m@),
        },
{
    match parsed {
        Ok(v) => Ok(v),
        Err(message) => Err(McpToolError::decode(field, message.as_str())),
    }
}

impl McpJsonDecode for chrono::NaiveDate {
    fn decode_json(field: &str, value: JsonValue) -> (r: Result<Self, McpToolError>)
        ensures
            match value@ {
                Json::String(s) => match naive_date_parse_error(s) {
                    None => r matches Ok(d) && d == naive_date_value(s),
                    Some(m) => r matches Err(e) && e@ == decode_failure(field@, m),
                },
                _ => r matches Err(e) && e@ == decode_failure(field@, "expected a date string"@),
            },
    {
        match value {
            JsonValue::String(s) => decoded_or_failure(field, parse_naive_date(s.as_str())),
            _ => Err(McpToolError::decode(field, "expected a date string")),
        }
    }
}

impl McpJsonDecode for chrono::NaiveDateTime {
    fn decode_json(field: &str, value: JsonValue) -> (r: Result<Self, McpToolError>)
        ensures
            match value@ {
                Json::String(s) => match naive_date_time_parse_error(s) {
                    None => r matches Ok(d) && d == naive_date_time_value(s),
                    Some(m) => r matches Err(e) && e@ == decode_failure(field@, m),
                },
                _ => r matches Err(e) && e@ == decode_failure(
                    field@,
                    "expected a date-time string"@,
                ),
            },
    {
        match value {
            JsonValue::String(s) => decoded_or_failure(field, parse_naive_date_time(s.as_str())),
            _ => Err(McpToolError::decode(field, "expected a date-time string")),
        }
    }
}

impl McpJsonDecode for std::path::PathBuf {
    fn decode_json(field: &str, value: JsonValue) -> (r: Result<Self, McpToolError>)
        ensures
            value@ matches Json::String(s) ==> (r matches Ok(p) && path_text(p) == s),
            !(value@ is String) ==> (r matches Err(e) && e@ == decode_failure(
                field@,
                "expected a path string"@,
            )),
    {
        match value {
            JsonValue::String(s) => Ok(path_from_string(s)),
            _ => Err(McpToolError::decode(field, "expected a path string")),
        }
    }
}

impl McpJsonDecode for JsonValue {
    fn decode_json(field: &str, value: JsonValue) -> (r: Result<Self, McpToolError>)
        ensures
            r matches Ok(x) && x@ == value@,
    {
        Ok(value)
    }
}

impl McpJsonDecode for McpAny {
    fn decode_json(field: &str, value: JsonValue) -> (r: Result<Self, McpToolError>)
        ensures
            r matches Ok(x) && x@ == value@,
    {
        Ok(McpAny::new(value))
    }
}

impl<T: McpJsonDecode> McpJsonDecode for Option<T> {
    fn decode_json(field: &str, value: JsonValue) -> (r: Result<Self, McpToolError>)
        ensures
            value@ == Json::Null ==> r matches Ok(None),
            value@ != Json::Null ==> exists|inner: Result<T, McpToolError>|
                call_ensures(T::decode_json, (field, value), inner) && match inner {
                    Ok(v) => r == Ok::<Option<T>, McpToolError>(Some(v)),
                    Err(e) => r == Err::<Option<T>, McpToolError>(e),
                },
    {
        if value.is_null() {
            return Ok(None);
        }
        match T::decode_json(field, value) {
            Ok(v) => Ok(Some(v)),
            Err(e) => Err(e),
        }
    }
}

/// Whether `x` is a decoding of a value whose model is `v`.
pub open spec fn decodes_to<T: McpJsonDecode>(field: &str, v: Json, x: T) -> bool {
    exists|item: JsonValue|
        item@ == v && #[trigger] call_ensures(
            T::decode_json,
            (field, item),
            Ok::<T, McpToolError>(x),
        )
}

/// Whether decoding a value whose model is `v` can fail with `e`.
pub open spec fn fails_with<T: McpJsonDecode>(field: &str, v: Json, e: McpToolError) -> bool {
    exists|item: JsonValue|
        item@ == v && #[trigger] call_ensures(
            T::decode_json,
            (field, item),
            Err::<T, McpToolError>(e),
        )
}

impl<T: McpJsonDecode> McpJsonDecode for Vec<T> {
    fn decode_json(field: &str, value: JsonValue) -> (r: Result<Self, McpToolError>)
        ensures
            match value@ {
                Json::Array(items) => match r {
                    Ok(out) => out@.len() == items.len() && forall|i: int|
                        0 <= i < items.len() ==> decodes_to(field, items[i], #[trigger] out@[i]),
                    Err(e) => exists|i: int|
                        0 <= i < items.len() && #[trigger] fails_with::<T>(field, items[i], e),
                },
                _ => r matches Err(e) && e@ == decode_failure(field@, serde_sequence_error(value@)),
            },
    {
        match value {
            JsonValue::Array(items) => {
                proof {
                    lemma_array_view(items);
                }
                let ghost views = Seq::new(items@.len(), |i: int| items@[i]@);
                let n = items.len();
                let mut rest = items;
                let mut out: Vec<T> = Vec::new();
                let mut i: usize = 0;
                while i < n
                    invariant
                        value@ == Json::Array(views),
                        n == views.len(),
                        i <= n,
                        rest@.len() == n - i,
                        forall|j: int| 0 <= j < rest@.len() ==> #[trigger] rest@[j]@ == views[i + j],
                        out@.len() == i,
                        forall|j: int| 0 <= j < i ==> decodes_to(field, views[j], #[trigger] out@[j]),
                    decreases n - i,
                {
                    let ghost before = rest@;
                    let item = rest.remove(0);
                    assert(item@ == views[i as int]) by {
                        assert(before[0]@ == views[i + 0]);
                    }
                    assert forall|j: int| 0 <= j < rest@.len() implies #[trigger] rest@[j]@
                        == views[i + 1 + j] by {
                        assert(rest@[j] == before[j + 1]);
                        assert(before[j + 1]@ == views[i + (j + 1)]);
                    }
                    let ghost item_g = item;
                    match T::decode_json(field, item) {
                        Ok(v) => {
                            assert(decodes_to(field, views[i as int], v));
                            let ghost prev = out@;
                            out.push(v);
                            assert forall|j: int| 0 <= j < i + 1 implies decodes_to(
                                field,
                                views[j],
                                #[trigger] out@[j],
                            ) by {
                                if j < i {
                                    assert(out@[j] == prev[j]);
                                }
                            }
                        },
                        Err(e) => {
                            assert(fails_with::<T>(field, views[i as int], e));
                            assert(value@->Array_0 == views);
                            assert(fails_with::<T>(field, value@->Array_0[i as int], e));
                            return Err(e);
                        },
                    }
                    i = i + 1;
                }
                Ok(out)
            },
            _ => Err(McpToolError::decode(field, serde_sequence_message(&value).as_str())),
        }
    }
}

impl<T: McpJsonDecode> McpJsonDecode for Box<T> {
    fn decode_json(field: &str, value: JsonValue) -> (r: Result<Self, McpToolError>)
        ensures
            exists|inner: Result<T, McpToolError>|
                call_ensures(T::decode_json, (field, value), inner) && match inner {
                    Ok(v) => r matches Ok(b) && *b == v,
                    Err(e) => r == Err::<Box<T>, McpToolError>(e),
                },
    {
        match T::decode_json(field, value) {
            Ok(v) => Ok(Box::new(v)),
            Err(e) => Err(e),
        }
    }
}

impl<'a, T: ?Sized + ToOwned> McpJsonDecode for std::borrow::Cow<'a, T> where T::Owned: McpJsonDecode {
    fn decode_json(field: &str, value: JsonValue) -> (r: Result<Self, McpToolError>)
        ensures
            exists|inner: Result<T::Owned, McpToolError>|
                call_ensures(T::Owned::decode_json, (field, value), inner) && match inner {
                    Ok(v) => r matches Ok(c) && c == std::borrow::Cow::<'a, T>::Owned(v),
                    Err(e) => r == Err::<std::borrow::Cow<'a, T>, McpToolError>(e),
                },
    {
        match T::Owned::decode_json(field, value) {
            Ok(v) => Ok(std::borrow::Cow::Owned(v)),
            Err(e) => Err(e),
        }
    }
}

/// Whether a value is an array of exactly `n` items.
pub open spec fn is_array_of(v: Json, n: nat) -> bool {
    v matches Json::Array(items) && items.len() == n
}

/// The message `serde_json::from_value::<Vec<serde_json::Value>>` reports for
/// a value.
pub uninterp spec fn serde_sequence_error(value: Json) -> Seq<char>;

/// The message of `serde_json::from_value::<Vec<serde_json::Value>>` on the
/// `serde_json` form of a value that is not an array (empty if it accepts
/// it). Claimed: the message is `serde_sequence_error` of the value.
#[verifier::external_body]
fn serde_sequence_message(value: &JsonValue) -> (r: String)
    ensures
        r@ == serde_sequence_error(value@),
{
    match serde_json::from_value::<Vec<serde_json::Value>>(serde_of_json(value)) {
        Ok(_) => String::new(),
        Err(e) => e.to_string(),
    }
}

/// Whether a value is an array of exactly `n` items.
fn array_of_len(value: &JsonValue, n: usize) -> (r: bool)
    ensures
        r == is_array_of(value@, n as nat),
{
    match value {
        JsonValue::Array(items) => {
            proof {
                lemma_array_view(*items);
            }
            items.len() == n
        },
        _ => false,
    }
}

/// The items of an array value of `n` items.
fn tuple_items(value: JsonValue, n: usize) -> (r: Vec<JsonValue>)
    requires
        is_array_of(value@, n as nat),
    ensures
        r@.len() == n,
        forall|i: int| 0 <= i < n ==> (#[trigger] r@[i])@ == value@->Array_0[i],
{
    match value {
        JsonValue::Array(items) => {
            proof {
                lemma_array_view(items);
            }
            items
        },
        _ => Vec::new(),
    }
}

/// The message `serde_json::from_value` reports for a value when reading a
/// tuple of 1 JSON value.
pub uninterp spec fn serde_tuple1_error(value: Json) -> Seq<char>;

/// The message of `serde_json::from_value::<(serde_json::Value,)>` on the
/// `serde_json` form of a value (empty if it accepts it). Claimed: the message
/// is `serde_tuple1_error` of the value.
#[verifier::external_body]
fn serde_tuple1_message(value: &JsonValue) -> (r: String)
    ensures
        r@ == serde_tuple1_error(value@),
{
    match serde_json::from_value::<(serde_json::Value,)>(serde_of_json(value)) {
        Ok(_) => String::new(),
        Err(e) => e.to_string(),
    }
}

/// The message `serde_json::from_value` reports for a value when reading a
/// tuple of 2 JSON values.
pub uninterp spec fn serde_tuple2_error(value: Json) -> Seq<char>;

/// The message of `serde_json::from_value::<(serde_json::Value, serde_json::Value)>` on the
/// `serde_json` form of a value (empty if it accepts it). Claimed: the message
/// is `serde_tuple2_error` of the value.
#[verifier::external_body]
fn serde_tuple2_message(value: &JsonValue) -> (r: String)
    ensures
        r@ == serde_tuple2_error(value@),
{
    match serde_json::from_value::<(serde_json::Value, serde_json::Value)>(serde_of_json(value)) {
        Ok(_) => String::new(),
        Err(e) => e.to_string(),
    }
}

/// The message `serde_json::from_value` reports for a value when reading a
/// tuple of 3 JSON values.
pub uninterp spec fn serde_tuple3_error(value: Json) -> Seq<char>;

/// The message of `serde_json::from_value::<(serde_json::Value, serde_json::Value, serde_json::Value)>` on the
/// `serde_json` form of a value (empty if it accepts it). Claimed: the message
/// is `serde_tuple3_error` of the value.
#[verifier::external_body]
fn serde_tuple3_message(value: &JsonValue) -> (r: String)
    ensures
        r@ == serde_tuple3_error(value@),
{
    match serde_json::from_value::<(serde_json::Value, serde_json::Value, serde_json::Value)>(serde_of_json(value)) {
        Ok(_) => String::new(),
        Err(e) => e.to_string(),
    }
}

/// The message `serde_json::from_value` reports for a value when reading a
/// tuple of 4 JSON values.
pub uninterp spec fn serde_tuple4_error(value: Json) -> Seq<char>;

/// The message of `serde_json::from_value::<(serde_json::Value, serde_json::Value, serde_json::Value, serde_json::Value)>` on the
/// `serde_json` form of a value (empty if it accepts it). Claimed: the message
/// is `serde_tuple4_error` of the value.
#[verifier::external_body]
fn serde_tuple4_message(value: &JsonValue) -> (r: String)
    ensures
        r@ == serde_tuple4_error(value@),
{
    match serde_json::from_value::<(serde_json::Value, serde_json::Value, serde_json::Value, serde_json::Value)>(serde_of_json(value)) {
        Ok(_) => String::new(),
        Err(e) => e.to_string(),
    }
}

/// Takes the last item of a list.
fn pop_item(items: &mut Vec<JsonValue>) -> (r: JsonValue)
    requires
        old(items)@.len() > 0,
    ensures
        final(items)@ == old(items)@.drop_last(),
        r == old(items)@.last(),
{
    match items.pop() {
        Some(item) => item,
        None => JsonValue::Null,
    }
}

impl<A: McpJsonDecode> McpJsonDecode for (A,) {
    fn decode_json(field: &str, value: JsonValue) -> (r: Result<Self, McpToolError>)
        ensures
            !is_array_of(value@, 1) ==> (r matches Err(e) && e@ == decode_failure(
                field@,
                serde_tuple1_error(value@),
            )),
            is_array_of(value@, 1) ==> match r {
                Ok(t) => decodes_to(field, value@->Array_0[0], t.0),
                Err(e) => fails_with::<A>(field, value@->Array_0[0], e),
            },
    {
        if !array_of_len(&value, 1) {
            return Err(McpToolError::decode(field, serde_tuple1_message(&value).as_str()));
        }
        let mut items = tuple_items(value, 1);
        let a_item = pop_item(&mut items);
        let ghost ga = a_item;
        match A::decode_json(field, a_item) {
            Ok(a) => Ok((a,)),
            Err(e) => Err(e),
        }
    }
}

impl<A: McpJsonDecode, B: McpJsonDecode> McpJsonDecode for (A, B) {
    fn decode_json(field: &str, value: JsonValue) -> (r: Result<Self, McpToolError>)
        ensures
            !is_array_of(value@, 2) ==> (r matches Err(e) && e@ == decode_failure(
                field@,
                serde_tuple2_error(value@),
            )),
            is_array_of(value@, 2) ==> match r {
                Ok(t) => decodes_to(field, value@->Array_0[0], t.0) && decodes_to(
                    field,
                    value@->Array_0[1],
                    t.1,
                ),
                Err(e) => fails_with::<A>(field, value@->Array_0[0], e) || fails_with::<B>(
                    field,
                    value@->Array_0[1],
                    e,
                ),
            },
    {
        if !array_of_len(&value, 2) {
            return Err(McpToolError::decode(field, serde_tuple2_message(&value).as_str()));
        }
        let mut items = tuple_items(value, 2);
        let b_item = pop_item(&mut items);
        let a_item = pop_item(&mut items);
        let ghost (ga, gb) = (a_item, b_item);
        let a = match A::decode_json(field, a_item) {
            Ok(a) => a,
            Err(e) => {
                return Err(e);
            },
        };
        match B::decode_json(field, b_item) {
            Ok(b) => Ok((a, b)),
            Err(e) => Err(e),
        }
    }
}

impl<A: McpJsonDecode, B: McpJsonDecode, C: McpJsonDecode> McpJsonDecode for (A, B, C) {
    fn decode_json(field: &str, value: JsonValue) -> (r: Result<Self, McpToolError>)
        ensures
            !is_array_of(value@, 3) ==> (r matches Err(e) && e@ == decode_failure(
                field@,
                serde_tuple3_error(value@),
            )),
            is_array_of(value@, 3) ==> match r {
                Ok(t) => decodes_to(field, value@->Array_0[0], t.0) && decodes_to(
                    field,
                    value@->Array_0[1],
                    t.1,
                ) && decodes_to(field, value@->Array_0[2], t.2),
                Err(e) => fails_with::<A>(field, value@->Array_0[0], e) || fails_with::<B>(
                    field,
                    value@->Array_0[1],
                    e,
                ) || fails_with::<C>(field, value@->Array_0[2], e),
            },
    {
        if !array_of_len(&value, 3) {
            return Err(McpToolError::decode(field, serde_tuple3_message(&value).as_str()));
        }
        let mut items = tuple_items(value, 3);
        let c_item = pop_item(&mut items);
        let b_item = pop_item(&mut items);
        let a_item = pop_item(&mut items);
        let ghost (ga, gb, gc) = (a_item, b_item, c_item);
        let a = match A::decode_json(field, a_item) {
            Ok(a) => a,
            Err(e) => {
                return Err(e);
            },
        };
        let b = match B::decode_json(field, b_item) {
            Ok(b) => b,
            Err(e) => {
                return Err(e);
            },
        };
        match C::decode_json(field, c_item) {
            Ok(c) => Ok((a, b, c)),
            Err(e) => Err(e),
        }
    }
}

impl<
    A: McpJsonDecode,
    B: McpJsonDecode,
    C: McpJsonDecode,
    D: McpJsonDecode,
> McpJsonDecode for (A, B, C, D) {
    fn decode_json(field: &str, value: JsonValue) -> (r: Result<Self, McpToolError>)
        ensures
            !is_array_of(value@, 4) ==> (r matches Err(e) && e@ == decode_failure(
                field@,
                serde_tuple4_error(value@),
            )),
            is_array_of(value@, 4) ==> match r {
                Ok(t) => decodes_to(field, value@->Array_0[0], t.0) && decodes_to(
                    field,
                    value@->Array_0[1],
                    t.1,
                ) && decodes_to(field, value@->Array_0[2], t.2) && decodes_to(
                    field,
                    value@->Array_0[3],
                    t.3,
                ),
                Err(e) => fails_with::<A>(field, value@->Array_0[0], e) || fails_with::<B>(
                    field,
                    value@->Array_0[1],
                    e,
                ) || fails_with::<C>(field, value@->Array_0[2], e) || fails_with::<D>(
                    field,
                    value@->Array_0[3],
                    e,
                ),
            },
    {
        if !array_of_len(&value, 4) {
            return Err(McpToolError::decode(field, serde_tuple4_message(&value).as_str()));
        }
        let mut items = tuple_items(value, 4);
        let d_item = pop_item(&mut items);
        let c_item = pop_item(&mut items);
        let b_item = pop_item(&mut items);
        let a_item = pop_item(&mut items);
        let ghost (ga, gb, gc, gd) = (a_item, b_item, c_item, d_item);
        let a = match A::decode_json(field, a_item) {
            Ok(a) => a,
            Err(e) => {
                return Err(e);
            },
        };
        let b = match B::decode_json(field, b_item) {
            Ok(b) => b,
            Err(e) => {
                return Err(e);
            },
        };
        let c = match C::decode_json(field, c_item) {
            Ok(c) => c,
            Err(e) => {
                return Err(e);
            },
        };
        match D::decode_json(field, d_item) {
            Ok(d) => Ok((a, b, c, d)),
            Err(e) => Err(e),
        }
    }
}

/// Whether `bound` is the decoding of what a range object stores for one
/// bound: nothing or `null` is no bound, and a value decodes to a bound.
pub open spec fn decoded_bound<T: McpJsonDecode>(
    field: &str,
    stored: Option<Json>,
    bound: Option<T>,
) -> bool {
    match stored {
        None => bound is None,
        Some(Json::Null) => bound is None,
        Some(v) => bound matches Some(x) && decodes_to(field, v, x),
    }
}

/// Whether decoding what a range object stores for one bound fails with `e`.
pub open spec fn bound_fails<T: McpJsonDecode>(
    field: &str,
    stored: Option<Json>,
    e: McpToolError,
) -> bool {
    match stored {
        Some(v) => v != Json::Null && fails_with::<T>(field, v, e),
        None => false,
    }
}

/// Removes one bound from a range object and decodes it.
fn take_bound<T: McpJsonDecode>(field: &str, object: &mut JsonMap, key: &str) -> (r: Result<
    Option<T>,
    McpToolError,
>)
    ensures
        final(object)@ == crate::json::map_remove(old(object)@, key@),
        match r {
            Ok(b) => decoded_bound(field, map_get(old(object)@, key@), b),
            Err(e) => bound_fails::<T>(field, map_get(old(object)@, key@), e),
        },
{
    match object.remove(key) {
        None => Ok(None),
        Some(item) => {
            if item.is_null() {
                return Ok(None);
            }
            let ghost item_g = item;
            match T::decode_json(field, item) {
                Ok(x) => Ok(Some(x)),
                Err(e) => Err(e),
            }
        },
    }
}

/// What is left of a range object once its bounds are taken.
pub open spec fn range_rest(e: Seq<(Seq<char>, Json)>) -> Seq<(Seq<char>, Json)> {
    map_remove(map_remove(e, "min"@), "max"@)
}

/// The failure for a field a range object does not have.
pub open spec fn unknown_range_field(field: Seq<char>, key: Seq<char>) -> ToolErrorModel {
    decode_failure(field, "unknown field `"@ + key + "`, expected `min` or `max`"@)
}

impl<T: McpJsonDecode> McpJsonDecode for McpRange<T> {
    /// A range object has only `min` and `max`, each absent, `null` or a
    /// decodable bound.
    fn decode_json(field: &str, value: JsonValue) -> (r: Result<Self, McpToolError>)
        ensures
            match value@ {
                Json::Object(e) => match r {
                    Ok(range) => range_rest(e).len() == 0 && decoded_bound(
                        field,
                        map_get(e, "min"@),
                        range.min,
                    ) && decoded_bound(field, map_get(e, "max"@), range.max),
                    Err(err) => bound_fails::<T>(field, map_get(e, "min"@), err) || bound_fails::<
                        T,
                    >(field, map_get(e, "max"@), err) || (range_rest(e).len() > 0 && err@
                        == unknown_range_field(field@, range_rest(e)[0].0)),
                },
                _ => r matches Err(err) && err@ == decode_failure(field@, "expected an object"@),
            },
    {
        match value {
            JsonValue::Object(object) => {
                proof {
                    crate::json::lemma_object_view(object);
                }
                let ghost e = object@;
                let mut object = object;
                let min = match take_bound::<T>(field, &mut object, "min") {
                    Ok(x) => x,
                    Err(err) => {
                        return Err(err);
                    },
                };
                proof {
                    reveal_strlit("min");
                    reveal_strlit("max");
                    assert("min"@[1] != "max"@[1]);
                    crate::json::lemma_map_remove_get_other(e, "min"@, "max"@);
                }
                let max = match take_bound::<T>(field, &mut object, "max") {
                    Ok(x) => x,
                    Err(err) => {
                        return Err(err);
                    },
                };
                if object.len() > 0 {
                    let message = concat3(
                        "unknown field `",
                        object.key_at(0).as_str(),
                        "`, expected `min` or `max`",
                    );
                    return Err(McpToolError::decode(field, message.as_str()));
                }
                Ok(McpRange::new(min, max))
            },
            _ => Err(McpToolError::decode(field, "expected an object")),
        }
    }
}

} // verus!
