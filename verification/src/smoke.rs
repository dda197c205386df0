//! The decisions of a newline-delimited JSON-RPC MCP client for subprocess
//! smoke tests: the messages it sends, how it reads each response line, and
//! the process details it reports.

use crate::json::{copy_str, lemma_object_view, map_get, map_insert, Json, JsonMap, JsonNumber, JsonValue, NumberModel};
use crate::json_text::{json_line_error, json_line_value, parse_json_line};
use crate::text::{concat3, is_blank, is_unicode_whitespace, unicode_whitespace};
use vstd::prelude::*;
use vstd::string::*;

verus! {

/// The protocol version the client asks for.
pub const MCP_PROTOCOL_VERSION: &'static str = "2025-11-25";

/// `{ "id": id, "jsonrpc": "2.0", "method": method, "params": params }`.
pub open spec fn request_json(id: u64, method: Seq<char>, params: Json) -> Json {
    Json::Object(
        map_insert(
            map_insert(
                map_insert(
                    map_insert(Seq::empty(), "jsonrpc"@, Json::String("2.0"@)),
                    "id"@,
                    Json::Number(NumberModel::PosInt(id)),
                ),
                "method"@,
                Json::String(method),
            ),
            "params"@,
            params,
        ),
    )
}

/// A JSON-RPC request message.
pub fn request_message(id: u64, method: &str, params: JsonValue) -> (r: JsonValue)
    ensures
        r@ == request_json(id, method@, params@),
{
    let mut object = JsonMap::new();
    object.insert(String::from_str("jsonrpc"), JsonValue::String(String::from_str("2.0")));
    object.insert(String::from_str("id"), JsonValue::Number(JsonNumber::PosInt(id)));
    object.insert(String::from_str("method"), JsonValue::String(copy_str(method)));
    object.insert(String::from_str("params"), params);
    proof {
        lemma_object_view(object);
    }
    JsonValue::Object(object)
}

/// The `notifications/initialized` message.
pub fn initialized_notification() -> (r: JsonValue)
    ensures
        r@ == Json::Object(
            map_insert(
                map_insert(Seq::empty(), "jsonrpc"@, Json::String("2.0"@)),
                "method"@,
                Json::String("notifications/initialized"@),
            ),
        ),
{
    let mut object = JsonMap::new();
    object.insert(String::from_str("jsonrpc"), JsonValue::String(String::from_str("2.0")));
    object.insert(
        String::from_str("method"),
        JsonValue::String(String::from_str("notifications/initialized")),
    );
    proof {
        lemma_object_view(object);
    }
    JsonValue::Object(object)
}

/// The parameters of the `initialize` request: the protocol version, no
/// capabilities, and the client's name and version.
pub fn initialize_params(client_version: &str) -> (r: JsonValue)
    ensures
        r@ == Json::Object(
            map_insert(
                map_insert(
                    map_insert(Seq::empty(), "protocolVersion"@, Json::String(MCP_PROTOCOL_VERSION@)),
                    "capabilities"@,
                    Json::Object(Seq::empty()),
                ),
                "clientInfo"@,
                Json::Object(
                    map_insert(
                        map_insert(
                            Seq::empty(),
                            "name"@,
                            Json::String("component-shape-mcp-stdio-smoke"@),
                        ),
                        "version"@,
                        Json::String(client_version@),
                    ),
                ),
            ),
        ),
{
    let mut info = JsonMap::new();
    info.insert(
        String::from_str("name"),
        JsonValue::String(String::from_str("component-shape-mcp-stdio-smoke")),
    );
    info.insert(String::from_str("version"), JsonValue::String(copy_str(client_version)));
    let capabilities = JsonMap::new();
    let mut object = JsonMap::new();
    object.insert(
        String::from_str("protocolVersion"),
        JsonValue::String(String::from_str(MCP_PROTOCOL_VERSION)),
    );
    proof {
        lemma_object_view(capabilities);
        lemma_object_view(info);
    }
    object.insert(String::from_str("capabilities"), JsonValue::Object(capabilities));
    object.insert(String::from_str("clientInfo"), JsonValue::Object(info));
    proof {
        lemma_object_view(object);
    }
    JsonValue::Object(object)
}

/// The id after `id`, saturating at the largest id.
pub fn next_request_id(id: u64) -> (r: u64)
    ensures
        r == if id == u64::MAX {
            id
        } else {
            (id + 1) as u64
        },
{
    id.saturating_add(1)
}

/// What the client does with one response line read while waiting for the
/// response to request `id`.
#[derive(Debug)]
pub enum ResponseStep {
    /// A message without an id (a notification): keep reading.
    Skip,
    /// A response to another request.
    Unexpected(JsonValue),
    /// The server answered with a JSON-RPC error.
    RpcError(JsonValue),
    /// The response holds no `result`.
    MissingResult(JsonValue),
    /// The response's `result`.
    Result(JsonValue),
}

/// The entries of an object value (none for other values).
pub open spec fn entries_of(v: Json) -> Seq<(Seq<char>, Json)> {
    match v {
        Json::Object(e) => e,
        _ => Seq::empty(),
    }
}

/// `response.get(key)`.
pub open spec fn member(v: Json, key: Seq<char>) -> Option<Json> {
    map_get(entries_of(v), key)
}

/// The step for a response: a message without an id is skipped; one with
/// another id is unexpected; then an `error` member is a JSON-RPC error, and
/// otherwise the `result` member is returned, or is missing.
pub open spec fn response_step_model(response: Json, id: u64) -> (int, Option<Json>) {
    let id_matches = member(response, "id"@) == Some(Json::Number(NumberModel::PosInt(id)));
    if !id_matches {
        if member(response, "id"@) is None {
            (0, None)
        } else {
            (1, Some(response))
        }
    } else if member(response, "error"@) is Some {
        (2, member(response, "error"@))
    } else if member(response, "result"@) is Some {
        (4, member(response, "result"@))
    } else {
        (3, Some(response))
    }
}

/// The model of a step: its kind (skip, unexpected, error, missing result,
/// result, in that order) and the value it carries.
pub open spec fn step_model(s: ResponseStep) -> (int, Option<Json>) {
    match s {
        ResponseStep::Skip => (0, None),
        ResponseStep::Unexpected(v) => (1, Some(v@)),
        ResponseStep::RpcError(v) => (2, Some(v@)),
        ResponseStep::MissingResult(v) => (3, Some(v@)),
        ResponseStep::Result(v) => (4, Some(v@)),
    }
}

/// Decide what a response line means for the request with the given id.
pub fn response_step(response: JsonValue, id: u64) -> (r: ResponseStep)
    ensures
        step_model(r) == response_step_model(response@, id),
{
    let (id_present, id_matches, error, result) = match response.as_object() {
        Some(object) => {
            let id_present = object.contains_key("id");
            let id_matches = match object.get("id") {
                Some(JsonValue::Number(JsonNumber::PosInt(n))) => *n == id,
                _ => false,
            };
            let error = match object.get("error") {
                Some(e) => Some(e.copy()),
                None => None,
            };
            let result = match object.get("result") {
                Some(v) => Some(v.copy()),
                None => None,
            };
            (id_present, id_matches, error, result)
        },
        None => (false, false, None, None),
    };
    if !id_matches {
        if !id_present {
            return ResponseStep::Skip;
        }
        return ResponseStep::Unexpected(response);
    }
    match error {
        Some(e) => ResponseStep::RpcError(e),
        None => match result {
            Some(v) => ResponseStep::Result(v),
            None => ResponseStep::MissingResult(response),
        },
    }
}

/// Decide what one response line read from the server means for the request
/// with the given id: the line must be one JSON value, which is then decided
/// on as `response_step` does; a line that is not JSON gives the reader's
/// error message.
pub fn response_line_step(line: &str, id: u64) -> (r: Result<ResponseStep, String>)
    ensures
        match json_line_value(line@) {
            None => r matches Err(m) && m@ == json_line_error(line@),
            Some(v) => r matches Ok(s) && step_model(s) == response_step_model(v, id),
        },
{
    match parse_json_line(line) {
        Ok(response) => Ok(response_step(response, id)),
        Err(message) => Err(message),
    }
}

/// A tool call's protocol-level `structuredContent`, if present.
pub fn tool_call_structured_content(result: &JsonValue) -> (r: Option<&JsonValue>)
    ensures
        match r {
            Some(v) => Some(v@) == (if member(result@, "structuredContent"@) is Some {
                member(result@, "structuredContent"@)
            } else {
                member(result@, "structured_content"@)
            }),
            None => member(result@, "structuredContent"@) is None && member(
                result@,
                "structured_content"@,
            ) is None,
        },
{
    match result.as_object() {
        Some(object) => match object.get("structuredContent") {
            Some(v) => Some(v),
            None => object.get("structured_content"),
        },
        None => None,
    }
}

/// Process status attached to stdio smoke failures: running, or the text of
/// its exit status.
#[derive(Clone, Debug, PartialEq, Eq)]
pub struct ProcessStatus(Option<String>);

impl ProcessStatus {
    pub closed spec fn spec_status(&self) -> Option<Seq<char>> {
        match self.0 {
            Some(s) => Some(s@),
            None => None,
        }
    }

    /// A process that has not exited.
    pub fn running() -> (r: Self)
        ensures
            r.spec_status() is None,
    {
        ProcessStatus(None)
    }

    /// A process that exited with the given status text.
    pub fn exited(status: String) -> (r: Self)
        ensures
            r.spec_status() == Some(status@),
    {
        ProcessStatus(Some(status))
    }

    /// The text appended to an error: ` (process status: ...)`, or nothing
    /// while running.
    pub fn render(&self) -> (r: String)
        ensures
            r@ == match self.spec_status() {
                Some(s) => " (process status: "@ + s + ")"@,
                None => Seq::<char>::empty(),
            },
    {
        match &self.0 {
            Some(status) => concat3(" (process status: ", status.as_str(), ")"),
            None => String::new(),
        }
    }
}

/// `s` without trailing whitespace.
pub open spec fn trim_end_text(s: Seq<char>) -> Seq<char>
    decreases s.len(),
{
    if s.len() > 0 && is_unicode_whitespace(s.last()) {
        trim_end_text(s.drop_last())
    } else {
        s
    }
}

/// Captured stderr attached to stdio smoke failures.
#[derive(Clone, Debug, PartialEq, Eq)]
pub struct StderrSnapshot(String);

impl StderrSnapshot {
    pub closed spec fn spec_text(&self) -> Seq<char> {
        self.0@
    }

    /// No captured output.
    pub fn empty() -> (r: Self)
        ensures
            r.spec_text() == Seq::<char>::empty(),
    {
        StderrSnapshot(String::new())
    }

    /// The given captured output.
    pub fn from_text(text: String) -> (r: Self)
        ensures
            r.spec_text() == text@,
    {
        StderrSnapshot(text)
    }

    /// The captured output.
    pub fn as_str(&self) -> (r: &str)
        ensures
            r@ == self.spec_text(),
    {
        self.0.as_str()
    }

    /// The text appended to an error: nothing for blank output, else a
    /// `stderr:` section holding the output without trailing whitespace.
    pub fn render(&self) -> (r: String)
        ensures
            r@ == if is_blank(self.spec_text()) {
                Seq::<char>::empty()
            } else {
                "\nstderr:\n"@ + trim_end_text(self.spec_text())
            },
    {
        if crate::text::blank(self.0.as_str()) {
            return String::new();
        }
        let chars = crate::text::chars_of(self.0.as_str());
        let mut n = chars.len();
        assert(chars@.subrange(0, chars@.len() as int) =~= chars@);
        while n > 0 && unicode_whitespace(chars[n - 1])
            invariant
                n <= chars@.len(),
                trim_end_text(chars@) == trim_end_text(chars@.subrange(0, n as int)),
            decreases n,
        {
            assert(chars@.subrange(0, n as int).drop_last() =~= chars@.subrange(0, n - 1));
            n = n - 1;
        }
        let mut kept: Vec<char> = Vec::new();
        let mut i: usize = 0;
        while i < n
            invariant
                n <= chars@.len(),
                i <= n,
                kept@ == chars@.subrange(0, i as int),
            decreases n - i,
        {
            kept.push(chars[i]);
            i = i + 1;
            assert(kept@ =~= chars@.subrange(0, i as int));
        }
        let text = crate::text::string_from_chars(&kept);
        crate::text::concat2("\nstderr:\n", text.as_str())
    }
}

impl Default for StderrSnapshot {
    fn default() -> (r: Self)
        ensures
            r.spec_text() == Seq::<char>::empty(),
    {
        Self::empty()
    }
}


/// Reading a response line by line: every message without an `id` before
/// the answer is skipped, and the first message whose `id` is the request's
/// ends the read, with its `error` when it has one, else its `result`, else
/// the whole message as missing a result.
pub proof fn lemma_read_skips_until_answer(lines: Seq<Json>, id: u64, k: int)
    requires
        0 <= k < lines.len(),
        forall|i: int| 0 <= i < k ==> member(#[trigger] lines[i], "id"@) is None,
        member(lines[k], "id"@) == Some(Json::Number(NumberModel::PosInt(id))),
    ensures
        forall|i: int| 0 <= i < k ==> #[trigger] response_step_model(lines[i], id) == (0int, None::<Json>),
        response_step_model(lines[k], id) == (if member(lines[k], "error"@) is Some {
            (2int, member(lines[k], "error"@))
        } else if member(lines[k], "result"@) is Some {
            (4int, member(lines[k], "result"@))
        } else {
            (3int, Some(lines[k]))
        }),
{
    assert forall|i: int| 0 <= i < k implies #[trigger] response_step_model(lines[i], id) == (
        0int,
        None::<Json>,
    ) by {
        assert(member(lines[i], "id"@) is None);
    }
}

} // verus!
