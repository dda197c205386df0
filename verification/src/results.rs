//! MCP tool results: structured success results and structured error
//! results.

use crate::json_text::{compact_json_text, json_text};
use crate::json::{lemma_object_view, map_insert, Json, JsonMap, JsonValue};
use crate::protocol::{ContentBlock, ToolCallResult};
use crate::text::concat2;
use crate::tool_error::{error_message, structured_error, McpToolError, ToolErrorModel};
use vstd::prelude::*;
use vstd::string::*;

verus! {

/// `{ "error": e }`.
pub open spec fn error_envelope(e: Json) -> Json {
    Json::Object(map_insert(Seq::empty(), "error"@, e))
}

/// `{ "kind": "error", "message": message }`.
pub open spec fn plain_error_json(message: Seq<char>) -> Json {
    Json::Object(
        map_insert(
            map_insert(Seq::empty(), "kind"@, Json::String("error"@)),
            "message"@,
            Json::String(message),
        ),
    )
}

/// Whether a result is an error result with one text block and the given
/// structured content.
pub open spec fn is_error_result(r: ToolCallResult, message: Seq<char>, structured: Json) -> bool {
    &&& r.is_error
    &&& r.content@.len() == 1
    &&& r.content@[0] matches ContentBlock::Text(t) && t@ == message
    &&& r.structured_content matches Some(v) && v@ == structured
}

/// Whether a result is the structured success result of `value`: its text is
/// the string itself for a JSON string and the JSON text of the value
/// otherwise, and its structured content is the value.
pub open spec fn is_structured_result(r: ToolCallResult, value: Json) -> bool {
    &&& !r.is_error
    &&& r.content@.len() == 1
    &&& match value {
        Json::String(s) => r.content@[0] matches ContentBlock::Text(t) && t@ == s,
        _ => r.content@[0] matches ContentBlock::Text(t) && t@ == json_text(value),
    }
    &&& r.structured_content matches Some(v) && v@ == value
}

/// A success result carrying `value` as structured content and as text.
pub fn tool_structured_result(value: JsonValue) -> (r: ToolCallResult)
    ensures
        is_structured_result(r, value@),
{
    let block = match &value {
        JsonValue::String(s) => ContentBlock::Text(crate::json::copy_str(s.as_str())),
        _ => ContentBlock::Text(compact_json_text(&value)),
    };
    let mut content: Vec<ContentBlock> = Vec::new();
    content.push(block);
    let mut result = ToolCallResult::success(content);
    result.structured_content = Some(value);
    result
}

fn tool_error_result_with_structured_content(message: String, structured_content: JsonValue) -> (r:
    ToolCallResult)
    ensures
        is_error_result(r, message@, structured_content@),
{
    let mut content: Vec<ContentBlock> = Vec::new();
    content.push(ContentBlock::text(message));
    let mut result = ToolCallResult::error(content);
    result.structured_content = Some(structured_content);
    result
}

fn error_object(error: JsonValue) -> (r: JsonValue)
    ensures
        r@ == error_envelope(error@),
{
    let mut object = JsonMap::new();
    object.insert(String::from_str("error"), error);
    proof {
        lemma_object_view(object);
    }
    JsonValue::Object(object)
}

/// An error result for a plain message, with `error.kind` `"error"`.
pub fn tool_error_result(message: &str) -> (r: ToolCallResult)
    ensures
        is_error_result(r, message@, error_envelope(plain_error_json(message@))),
{
    let mut inner = JsonMap::new();
    inner.insert(String::from_str("kind"), JsonValue::String(String::from_str("error")));
    inner.insert(String::from_str("message"), JsonValue::String(String::from_str(message)));
    proof {
        lemma_object_view(inner);
    }
    tool_error_result_with_structured_content(
        String::from_str(message),
        error_object(JsonValue::Object(inner)),
    )
}

/// An error result for a typed error: its message as text and its
/// structured form under `error`.
pub fn tool_error_result_for(error: McpToolError) -> (r: ToolCallResult)
    ensures
        is_error_result(r, error_message(error@), error_envelope(structured_error(error@))),
{
    let message = error.message();
    tool_error_result_with_structured_content(message, error_object(error.to_structured_value()))
}

/// The result for a response that was serialized to `serialized`: the
/// structured result of the value, or a handler error naming the
/// serialization failure.
pub fn serialize_response_value(serialized: Result<JsonValue, String>) -> (r: ToolCallResult)
    ensures
        match serialized {
            Ok(v) => is_structured_result(r, v@),
            Err(m) => is_error_result(
                r,
                error_message(
                    ToolErrorModel::Handler { message: "failed to serialize response: "@ + m@ },
                ),
                error_envelope(
                    structured_error(
                        ToolErrorModel::Handler { message: "failed to serialize response: "@ + m@ },
                    ),
                ),
            ),
        },
{
    match serialized {
        Ok(value) => tool_structured_result(value),
        Err(message) => {
            let text = concat2("failed to serialize response: ", message.as_str());
            tool_error_result_for(McpToolError::handler(text.as_str()))
        },
    }
}

/// The result for a handler outcome: the serialized response on success, or
/// a handler error carrying the handler's error text.
pub fn serialize_handler_response(result: Result<Result<JsonValue, String>, String>) -> (r:
    ToolCallResult)
    ensures
        match result {
            Ok(Ok(v)) => is_structured_result(r, v@),
            Ok(Err(m)) => is_error_result(
                r,
                error_message(
                    ToolErrorModel::Handler { message: "failed to serialize response: "@ + m@ },
                ),
                error_envelope(
                    structured_error(
                        ToolErrorModel::Handler { message: "failed to serialize response: "@ + m@ },
                    ),
                ),
            ),
            Err(m) => is_error_result(
                r,
                error_message(ToolErrorModel::Handler { message: m@ }),
                error_envelope(structured_error(ToolErrorModel::Handler { message: m@ })),
            ),
        },
{
    match result {
        Ok(serialized) => serialize_response_value(serialized),
        Err(message) => tool_error_result_for(McpToolError::handler(message.as_str())),
    }
}

} // verus!
