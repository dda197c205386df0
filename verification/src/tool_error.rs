//! Typed MCP tool errors, their messages and structured content.

use crate::json::{
    copy_str, lemma_array_view, lemma_map_insert_get_other, lemma_map_insert_get_same,
    lemma_object_view, map_get, map_insert, Json, JsonMap, JsonValue,
};
use crate::text::{concat2, concat3};
use vstd::prelude::*;
use vstd::string::*;

verus! {

/// Failure of an MCP tool call, tool registration or schema check.
#[derive(Debug)]
pub enum McpToolError {
    ArgumentsMustBeObject,
    MissingField { field: String },
    UnexpectedNull { field: String },
    DuplicateField { field: String },
    DecodeField { field: String, message: String },
    UnknownField { field: String },
    InvalidFieldValue { field: String, value: String },
    Validation { message: String, details: Vec<JsonValue> },
    InvalidToolOutput { name: String, message: String },
    Conversion { message: String },
    Handler { message: String },
    InvalidSchema { label: String, message: String },
    DuplicateTool { name: String },
    UnknownTool { name: String },
    DuplicateResource { uri: String },
    UnknownResource { uri: String },
    DuplicatePrompt { name: String },
    UnknownPrompt { name: String },
}

/// Mathematical model of [`McpToolError`].
pub enum ToolErrorModel {
    ArgumentsMustBeObject,
    MissingField { field: Seq<char> },
    UnexpectedNull { field: Seq<char> },
    DuplicateField { field: Seq<char> },
    DecodeField { field: Seq<char>, message: Seq<char> },
    UnknownField { field: Seq<char> },
    InvalidFieldValue { field: Seq<char>, value: Seq<char> },
    Validation { message: Seq<char>, details: Seq<Json> },
    InvalidToolOutput { name: Seq<char>, message: Seq<char> },
    Conversion { message: Seq<char> },
    Handler { message: Seq<char> },
    InvalidSchema { label: Seq<char>, message: Seq<char> },
    DuplicateTool { name: Seq<char> },
    UnknownTool { name: Seq<char> },
    DuplicateResource { uri: Seq<char> },
    UnknownResource { uri: Seq<char> },
    DuplicatePrompt { name: Seq<char> },
    UnknownPrompt { name: Seq<char> },
}

/// The models of a list of JSON values.
pub open spec fn json_seq(v: Seq<JsonValue>) -> Seq<Json> {
    Seq::new(v.len(), |i: int| v[i]@)
}

impl View for McpToolError {
    type V = ToolErrorModel;

    open spec fn view(&self) -> ToolErrorModel {
        match self {
            McpToolError::ArgumentsMustBeObject => ToolErrorModel::ArgumentsMustBeObject,
            McpToolError::MissingField { field } => ToolErrorModel::MissingField { field: field@ },
            McpToolError::UnexpectedNull { field } => ToolErrorModel::UnexpectedNull {
                field: field@,
            },
            McpToolError::DuplicateField { field } => ToolErrorModel::DuplicateField {
                field: field@,
            },
            McpToolError::DecodeField { field, message } => ToolErrorModel::DecodeField {
                field: field@,
                message: message@,
            },
            McpToolError::UnknownField { field } => ToolErrorModel::UnknownField { field: field@ },
            McpToolError::InvalidFieldValue { field, value } => ToolErrorModel::InvalidFieldValue {
                field: field@,
                value: value@,
            },
            McpToolError::Validation { message, details } => ToolErrorModel::Validation {
                message: message@,
                details: json_seq(details@),
            },
            McpToolError::InvalidToolOutput { name, message } => ToolErrorModel::InvalidToolOutput {
                name: name@,
                message: message@,
            },
            McpToolError::Conversion { message } => ToolErrorModel::Conversion {
                message: message@,
            },
            McpToolError::Handler { message } => ToolErrorModel::Handler { message: message@ },
            McpToolError::InvalidSchema { label, message } => ToolErrorModel::InvalidSchema {
                label: label@,
                message: message@,
            },
            McpToolError::DuplicateTool { name } => ToolErrorModel::DuplicateTool { name: name@ },
            McpToolError::UnknownTool { name } => ToolErrorModel::UnknownTool { name: name@ },
            McpToolError::DuplicateResource { uri } => ToolErrorModel::DuplicateResource {
                uri: uri@,
            },
            McpToolError::UnknownResource { uri } => ToolErrorModel::UnknownResource { uri: uri@ },
            McpToolError::DuplicatePrompt { name } => ToolErrorModel::DuplicatePrompt {
                name: name@,
            },
            McpToolError::UnknownPrompt { name } => ToolErrorModel::UnknownPrompt { name: name@ },
        }
    }
}

/// The stable machine-readable kind of an error.
pub open spec fn error_kind(e: ToolErrorModel) -> Seq<char> {
    match e {
        ToolErrorModel::ArgumentsMustBeObject => "arguments_must_be_object"@,
        ToolErrorModel::MissingField { .. } => "missing_field"@,
        ToolErrorModel::UnexpectedNull { .. } => "unexpected_null"@,
        ToolErrorModel::DuplicateField { .. } => "duplicate_field"@,
        ToolErrorModel::DecodeField { .. } => "decode_field"@,
        ToolErrorModel::UnknownField { .. } => "unknown_field"@,
        ToolErrorModel::InvalidFieldValue { .. } => "invalid_field_value"@,
        ToolErrorModel::Validation { .. } => "validation"@,
        ToolErrorModel::InvalidToolOutput { .. } => "invalid_tool_output"@,
        ToolErrorModel::Conversion { .. } => "conversion"@,
        ToolErrorModel::Handler { .. } => "handler"@,
        ToolErrorModel::InvalidSchema { .. } => "invalid_schema"@,
        ToolErrorModel::DuplicateTool { .. } => "duplicate_tool"@,
        ToolErrorModel::UnknownTool { .. } => "unknown_tool"@,
        ToolErrorModel::DuplicateResource { .. } => "duplicate_resource"@,
        ToolErrorModel::UnknownResource { .. } => "unknown_resource"@,
        ToolErrorModel::DuplicatePrompt { .. } => "duplicate_prompt"@,
        ToolErrorModel::UnknownPrompt { .. } => "unknown_prompt"@,
    }
}

/// The human-readable message of an error.
pub open spec fn error_message(e: ToolErrorModel) -> Seq<char> {
    match e {
        ToolErrorModel::ArgumentsMustBeObject => "tool arguments must be a JSON object"@,
        ToolErrorModel::MissingField { field } => "missing required field `"@ + field + "`"@,
        ToolErrorModel::UnexpectedNull { field } => "field `"@ + field + "` does not accept null"@,
        ToolErrorModel::DuplicateField { field } => "field `"@ + field
            + "` was provided more than once"@,
        ToolErrorModel::DecodeField { field, message } => "failed to decode field `"@ + field
            + "`: "@ + message,
        ToolErrorModel::UnknownField { field } => "unknown field `"@ + field + "`"@,
        ToolErrorModel::InvalidFieldValue { field, value } => "unknown value `"@ + value
            + "` for field `"@ + field + "`"@,
        ToolErrorModel::Validation { message, .. } => "validation failed: "@ + message,
        ToolErrorModel::InvalidToolOutput { name, message } => "tool `"@ + name
            + "` returned invalid structured content: "@ + message,
        ToolErrorModel::Conversion { message } => "conversion failed: "@ + message,
        ToolErrorModel::Handler { message } => "handler failed: "@ + message,
        ToolErrorModel::InvalidSchema { label, message } => "invalid "@ + label + ": "@ + message,
        ToolErrorModel::DuplicateTool { name } => "tool `"@ + name + "` is already registered"@,
        ToolErrorModel::UnknownTool { name } => "unknown tool `"@ + name + "`"@,
        ToolErrorModel::DuplicateResource { uri } => "resource `"@ + uri
            + "` is already registered"@,
        ToolErrorModel::UnknownResource { uri } => "unknown resource `"@ + uri + "`"@,
        ToolErrorModel::DuplicatePrompt { name } => "prompt `"@ + name
            + "` is already registered"@,
        ToolErrorModel::UnknownPrompt { name } => "unknown prompt `"@ + name + "`"@,
    }
}

/// A JSON string value.
pub open spec fn jstr(s: Seq<char>) -> Json {
    Json::String(s)
}

/// The extra fields of an error's structured content, as key/value pairs in
/// the order they are stored.
pub open spec fn error_extra_fields(e: ToolErrorModel) -> Seq<(Seq<char>, Json)> {
    match e {
        ToolErrorModel::ArgumentsMustBeObject => seq![],
        ToolErrorModel::MissingField { field } => seq![("field"@, jstr(field))],
        ToolErrorModel::UnexpectedNull { field } => seq![("field"@, jstr(field))],
        ToolErrorModel::DuplicateField { field } => seq![("field"@, jstr(field))],
        ToolErrorModel::UnknownField { field } => seq![("field"@, jstr(field))],
        ToolErrorModel::DecodeField { field, message } => seq![
            ("field"@, jstr(field)),
            ("detail"@, jstr(message)),
        ],
        ToolErrorModel::InvalidFieldValue { field, value } => seq![
            ("field"@, jstr(field)),
            ("value"@, jstr(value)),
        ],
        ToolErrorModel::Validation { message, details } => if details.len() == 0 {
            seq![("detail"@, jstr(message))]
        } else {
            seq![("detail"@, jstr(message)), ("details"@, Json::Array(details))]
        },
        ToolErrorModel::InvalidToolOutput { name, message } => seq![
            ("name"@, jstr(name)),
            ("detail"@, jstr(message)),
        ],
        ToolErrorModel::Conversion { message } => seq![("detail"@, jstr(message))],
        ToolErrorModel::Handler { message } => seq![("detail"@, jstr(message))],
        ToolErrorModel::InvalidSchema { label, message } => seq![
            ("label"@, jstr(label)),
            ("detail"@, jstr(message)),
        ],
        ToolErrorModel::DuplicateTool { name } => seq![("name"@, jstr(name))],
        ToolErrorModel::UnknownTool { name } => seq![("name"@, jstr(name))],
        ToolErrorModel::DuplicateResource { uri } => seq![("uri"@, jstr(uri))],
        ToolErrorModel::UnknownResource { uri } => seq![("uri"@, jstr(uri))],
        ToolErrorModel::DuplicatePrompt { name } => seq![("name"@, jstr(name))],
        ToolErrorModel::UnknownPrompt { name } => seq![("name"@, jstr(name))],
    }
}

/// Inserting a list of pairs, in order, into an object's entries.
pub open spec fn insert_all(e: Seq<(Seq<char>, Json)>, pairs: Seq<(Seq<char>, Json)>) -> Seq<
    (Seq<char>, Json),
>
    decreases pairs.len(),
{
    if pairs.len() == 0 {
        e
    } else {
        insert_all(map_insert(e, pairs[0].0, pairs[0].1), pairs.drop_first())
    }
}

/// The `structured_content.error` object of an error: its kind, its message,
/// and the fields that identify what failed.
pub open spec fn structured_error(e: ToolErrorModel) -> Json {
    Json::Object(
        insert_all(
            map_insert(
                map_insert(Seq::empty(), "kind"@, jstr(error_kind(e))),
                "message"@,
                jstr(error_message(e)),
            ),
            error_extra_fields(e),
        ),
    )
}

/// A JSON string value holding a copy of `s`.
pub fn json_string(s: &str) -> (r: JsonValue)
    ensures
        r@ == Json::String(s@),
{
    JsonValue::String(copy_str(s))
}

impl McpToolError {
    /// Stable machine-readable error kind used in MCP structured error content.
    pub fn kind(&self) -> (r: &'static str)
        ensures
            r@ == error_kind(self@),
    {
        match self {
            McpToolError::ArgumentsMustBeObject => "arguments_must_be_object",
            McpToolError::MissingField { .. } => "missing_field",
            McpToolError::UnexpectedNull { .. } => "unexpected_null",
            McpToolError::DuplicateField { .. } => "duplicate_field",
            McpToolError::DecodeField { .. } => "decode_field",
            McpToolError::UnknownField { .. } => "unknown_field",
            McpToolError::InvalidFieldValue { .. } => "invalid_field_value",
            McpToolError::Validation { .. } => "validation",
            McpToolError::InvalidToolOutput { .. } => "invalid_tool_output",
            McpToolError::Conversion { .. } => "conversion",
            McpToolError::Handler { .. } => "handler",
            McpToolError::InvalidSchema { .. } => "invalid_schema",
            McpToolError::DuplicateTool { .. } => "duplicate_tool",
            McpToolError::UnknownTool { .. } => "unknown_tool",
            McpToolError::DuplicateResource { .. } => "duplicate_resource",
            McpToolError::UnknownResource { .. } => "unknown_resource",
            McpToolError::DuplicatePrompt { .. } => "duplicate_prompt",
            McpToolError::UnknownPrompt { .. } => "unknown_prompt",
        }
    }

    /// The human-readable error message (the error's display text).
    pub fn message(&self) -> (r: String)
        ensures
            r@ == error_message(self@),
    {
        match self {
            McpToolError::ArgumentsMustBeObject => String::from_str(
                "tool arguments must be a JSON object",
            ),
            McpToolError::MissingField { field } => concat3(
                "missing required field `",
                field.as_str(),
                "`",
            ),
            McpToolError::UnexpectedNull { field } => concat3(
                "field `",
                field.as_str(),
                "` does not accept null",
            ),
            McpToolError::DuplicateField { field } => concat3(
                "field `",
                field.as_str(),
                "` was provided more than once",
            ),
            McpToolError::DecodeField { field, message } => {
                let mut s = concat3("failed to decode field `", field.as_str(), "`: ");
                s.append(message.as_str());
                s
            },
            McpToolError::UnknownField { field } => concat3(
                "unknown field `",
                field.as_str(),
                "`",
            ),
            McpToolError::InvalidFieldValue { field, value } => {
                let mut s = concat3("unknown value `", value.as_str(), "` for field `");
                s.append(field.as_str());
                s.append("`");
                s
            },
            McpToolError::Validation { message, .. } => concat2(
                "validation failed: ",
                message.as_str(),
            ),
            McpToolError::InvalidToolOutput { name, message } => {
                let mut s = concat3(
                    "tool `",
                    name.as_str(),
                    "` returned invalid structured content: ",
                );
                s.append(message.as_str());
                s
            },
            McpToolError::Conversion { message } => concat2(
                "conversion failed: ",
                message.as_str(),
            ),
            McpToolError::Handler { message } => concat2("handler failed: ", message.as_str()),
            McpToolError::InvalidSchema { label, message } => {
                let mut s = concat3("invalid ", label.as_str(), ": ");
                s.append(message.as_str());
                s
            },
            McpToolError::DuplicateTool { name } => concat3(
                "tool `",
                name.as_str(),
                "` is already registered",
            ),
            McpToolError::UnknownTool { name } => concat3("unknown tool `", name.as_str(), "`"),
            McpToolError::DuplicateResource { uri } => concat3(
                "resource `",
                uri.as_str(),
                "` is already registered",
            ),
            McpToolError::UnknownResource { uri } => concat3(
                "unknown resource `",
                uri.as_str(),
                "`",
            ),
            McpToolError::DuplicatePrompt { name } => concat3(
                "prompt `",
                name.as_str(),
                "` is already registered",
            ),
            McpToolError::UnknownPrompt { name } => concat3("unknown prompt `", name.as_str(), "`"),
        }
    }

    /// Build the `structured_content.error` object for this typed MCP error.
    pub fn to_structured_value(&self) -> (r: JsonValue)
        ensures
            r@ == structured_error(self@),
    {
        let mut object = JsonMap::new();
        object.insert(String::from_str("kind"), json_string(self.kind()));
        object.insert(String::from_str("message"), JsonValue::String(self.message()));
        let ghost base = object@;
        match self {
            McpToolError::ArgumentsMustBeObject => {},
            McpToolError::MissingField { field }
            | McpToolError::UnexpectedNull { field }
            | McpToolError::DuplicateField { field }
            | McpToolError::UnknownField { field } => {
                object.insert(String::from_str("field"), json_string(field.as_str()));
            },
            McpToolError::DecodeField { field, message } => {
                object.insert(String::from_str("field"), json_string(field.as_str()));
                object.insert(String::from_str("detail"), json_string(message.as_str()));
            },
            McpToolError::InvalidFieldValue { field, value } => {
                object.insert(String::from_str("field"), json_string(field.as_str()));
                object.insert(String::from_str("value"), json_string(value.as_str()));
            },
            McpToolError::Validation { message, details } => {
                object.insert(String::from_str("detail"), json_string(message.as_str()));
                if details.len() != 0 {
                    let copied = copy_values(details);
                    proof {
                        lemma_array_view(copied);
                        assert(Seq::new(copied@.len(), |i: int| copied@[i]@) =~= json_seq(
                            details@,
                        ));
                    }
                    object.insert(String::from_str("details"), JsonValue::Array(copied));
                }
            },
            McpToolError::InvalidToolOutput { name, message } => {
                object.insert(String::from_str("name"), json_string(name.as_str()));
                object.insert(String::from_str("detail"), json_string(message.as_str()));
            },
            McpToolError::Conversion { message } | McpToolError::Handler { message } => {
                object.insert(String::from_str("detail"), json_string(message.as_str()));
            },
            McpToolError::InvalidSchema { label, message } => {
                object.insert(String::from_str("label"), json_string(label.as_str()));
                object.insert(String::from_str("detail"), json_string(message.as_str()));
            },
            McpToolError::DuplicateTool { name } | McpToolError::UnknownTool { name } => {
                object.insert(String::from_str("name"), json_string(name.as_str()));
            },
            McpToolError::DuplicateResource { uri } | McpToolError::UnknownResource { uri } => {
                object.insert(String::from_str("uri"), json_string(uri.as_str()));
            },
            McpToolError::DuplicatePrompt { name } | McpToolError::UnknownPrompt { name } => {
                object.insert(String::from_str("name"), json_string(name.as_str()));
            },
        }
        proof {
            let x = error_extra_fields(self@);
            reveal_with_fuel(insert_all, 3);
            assert(x.len() <= 2);
            if x.len() == 1 {
                assert(x.drop_first() =~= Seq::<(Seq<char>, Json)>::empty());
            } else if x.len() == 2 {
                assert(x.drop_first().drop_first() =~= Seq::<(Seq<char>, Json)>::empty());
            }
            lemma_object_view(object);
        }
        JsonValue::Object(object)
    }

    pub fn missing_field(field: &str) -> (r: Self)
        ensures
            r@ == (ToolErrorModel::MissingField { field: field@ }),
    {
        McpToolError::MissingField { field: copy_str(field) }
    }

    pub fn decode(field: &str, message: &str) -> (r: Self)
        ensures
            r@ == (ToolErrorModel::DecodeField { field: field@, message: message@ }),
    {
        McpToolError::DecodeField { field: copy_str(field), message: copy_str(message) }
    }

    pub fn invalid_field_value(field: &str, value: &str) -> (r: Self)
        ensures
            r@ == (ToolErrorModel::InvalidFieldValue { field: field@, value: value@ }),
    {
        McpToolError::InvalidFieldValue { field: copy_str(field), value: copy_str(value) }
    }

    pub fn validation(message: &str) -> (r: Self)
        ensures
            r@ == (ToolErrorModel::Validation { message: message@, details: Seq::empty() }),
    {
        let details: Vec<JsonValue> = Vec::new();
        assert(json_seq(details@) =~= Seq::<Json>::empty());
        McpToolError::Validation { message: copy_str(message), details }
    }

    /// Build a validation error from detail messages: the message joins them
    /// with `"; "` and the details list them as JSON strings.
    pub fn validation_details(details: &Vec<String>) -> (r: Self)
        ensures
            r@ == (ToolErrorModel::Validation {
                message: join_texts(string_views(details@), "; "@),
                details: Seq::new(details@.len(), |i: int| Json::String(details@[i]@)),
            }),
    {
        let message = join_strings(details, "; ");
        let n = details.len();
        let mut values: Vec<JsonValue> = Vec::new();
        let mut i: usize = 0;
        while i < n
            invariant
                n == details@.len(),
                i <= n,
                values@.len() == i,
                forall|j: int| 0 <= j < i ==> (#[trigger] values@[j])@ == Json::String(
                    details@[j]@,
                ),
            decreases n - i,
        {
            values.push(json_string(details[i].as_str()));
            i = i + 1;
        }
        let r = McpToolError::Validation { message, details: values };
        assert(json_seq(values@) =~= Seq::new(
            details@.len(),
            |i: int| Json::String(details@[i]@),
        ));
        r
    }

    /// Build a validation error with machine-readable structured details.
    pub fn validation_structured_details(message: &str, details: Vec<JsonValue>) -> (r: Self)
        ensures
            r@ == (ToolErrorModel::Validation { message: message@, details: json_seq(details@) }),
    {
        McpToolError::Validation { message: copy_str(message), details }
    }

    pub fn conversion(message: &str) -> (r: Self)
        ensures
            r@ == (ToolErrorModel::Conversion { message: message@ }),
    {
        McpToolError::Conversion { message: copy_str(message) }
    }

    pub fn invalid_tool_output(name: &str, message: &str) -> (r: Self)
        ensures
            r@ == (ToolErrorModel::InvalidToolOutput { name: name@, message: message@ }),
    {
        McpToolError::InvalidToolOutput { name: copy_str(name), message: copy_str(message) }
    }

    pub fn handler(message: &str) -> (r: Self)
        ensures
            r@ == (ToolErrorModel::Handler { message: message@ }),
    {
        McpToolError::Handler { message: copy_str(message) }
    }

    pub fn invalid_schema(label: &str, message: &str) -> (r: Self)
        ensures
            r@ == (ToolErrorModel::InvalidSchema { label: label@, message: message@ }),
    {
        McpToolError::InvalidSchema { label: copy_str(label), message: copy_str(message) }
    }

    pub fn duplicate_tool(name: &str) -> (r: Self)
        ensures
            r@ == (ToolErrorModel::DuplicateTool { name: name@ }),
    {
        McpToolError::DuplicateTool { name: copy_str(name) }
    }

    pub fn duplicate_resource(uri: &str) -> (r: Self)
        ensures
            r@ == (ToolErrorModel::DuplicateResource { uri: uri@ }),
    {
        McpToolError::DuplicateResource { uri: copy_str(uri) }
    }

    pub fn unknown_resource(uri: &str) -> (r: Self)
        ensures
            r@ == (ToolErrorModel::UnknownResource { uri: uri@ }),
    {
        McpToolError::UnknownResource { uri: copy_str(uri) }
    }

    pub fn duplicate_prompt(name: &str) -> (r: Self)
        ensures
            r@ == (ToolErrorModel::DuplicatePrompt { name: name@ }),
    {
        McpToolError::DuplicatePrompt { name: copy_str(name) }
    }

    pub fn unknown_prompt(name: &str) -> (r: Self)
        ensures
            r@ == (ToolErrorModel::UnknownPrompt { name: name@ }),
    {
        McpToolError::UnknownPrompt { name: copy_str(name) }
    }
}

/// Copies of a list of JSON values.
pub fn copy_values(values: &Vec<JsonValue>) -> (r: Vec<JsonValue>)
    ensures
        json_seq(r@) == json_seq(values@),
{
    let n = values.len();
    let mut out: Vec<JsonValue> = Vec::new();
    let mut i: usize = 0;
    while i < n
        invariant
            n == values@.len(),
            i <= n,
            out@.len() == i,
            forall|j: int| 0 <= j < i ==> (#[trigger] out@[j])@ == values@[j]@,
        decreases n - i,
    {
        out.push(values[i].copy());
        i = i + 1;
    }
    assert(json_seq(out@) =~= json_seq(values@));
    out
}

/// The views of a list of strings.
pub open spec fn string_views(v: Seq<String>) -> Seq<Seq<char>> {
    Seq::new(v.len(), |i: int| v[i]@)
}

/// The texts joined with `sep` between consecutive ones.
pub open spec fn join_texts(texts: Seq<Seq<char>>, sep: Seq<char>) -> Seq<char>
    decreases texts.len(),
{
    if texts.len() == 0 {
        Seq::empty()
    } else if texts.len() == 1 {
        texts[0]
    } else {
        join_texts(texts.drop_last(), sep) + sep + texts.last()
    }
}

/// `strings.join(sep)`.
pub fn join_strings(strings: &Vec<String>, sep: &str) -> (r: String)
    ensures
        r@ == join_texts(string_views(strings@), sep@),
{
    let n = strings.len();
    let mut out = String::new();
    let mut i: usize = 0;
    while i < n
        invariant
            n == strings@.len(),
            i <= n,
            out@ == join_texts(string_views(strings@.subrange(0, i as int)), sep@),
        decreases n - i,
    {
        proof {
            let t = string_views(strings@.subrange(0, i as int + 1));
            assert(t.drop_last() =~= string_views(strings@.subrange(0, i as int)));
        }
        if i != 0 {
            out.append(sep);
        }
        out.append(strings[i].as_str());
        i = i + 1;
        proof {
            let t = string_views(strings@.subrange(0, i as int));
            if i == 1 {
                assert(out@ =~= t[0]);
            }
        }
    }
    assert(strings@.subrange(0, n as int) =~= strings@);
    out
}

/// Storing pairs whose keys all differ from `k` leaves the value under `k`
/// as it was.
proof fn lemma_insert_all_keeps(e: Seq<(Seq<char>, Json)>, pairs: Seq<(Seq<char>, Json)>, k: Seq<char>)
    requires
        forall|i: int| 0 <= i < pairs.len() ==> #[trigger] pairs[i].0 != k,
    ensures
        map_get(insert_all(e, pairs), k) == map_get(e, k),
    decreases pairs.len(),
{
    if pairs.len() > 0 {
        lemma_map_insert_get_other(e, pairs[0].0, pairs[0].1, k);
        let rest = pairs.drop_first();
        assert forall|i: int| 0 <= i < rest.len() implies #[trigger] rest[i].0 != k by {
            assert(rest[i] == pairs[i + 1]);
        }
        lemma_insert_all_keeps(map_insert(e, pairs[0].0, pairs[0].1), rest, k);
    }
}

/// The structured content of every error names the error's kind under
/// `kind` and carries its message under `message`.
pub proof fn lemma_structured_error_reports_kind_and_message(e: ToolErrorModel)
    ensures
        structured_error(e) matches Json::Object(entries) && map_get(entries, "kind"@) == Some(
            jstr(error_kind(e)),
        ) && map_get(entries, "message"@) == Some(jstr(error_message(e))),
{
    reveal_strlit("kind");
    reveal_strlit("message");
    reveal_strlit("field");
    reveal_strlit("detail");
    reveal_strlit("details");
    reveal_strlit("value");
    reveal_strlit("name");
    reveal_strlit("label");
    reveal_strlit("uri");
    let k0 = map_insert(Seq::empty(), "kind"@, jstr(error_kind(e)));
    let base = map_insert(k0, "message"@, jstr(error_message(e)));
    lemma_map_insert_get_same(Seq::empty(), "kind"@, jstr(error_kind(e)));
    assert("kind"@.len() != "message"@.len());
    lemma_map_insert_get_other(k0, "message"@, jstr(error_message(e)), "kind"@);
    lemma_map_insert_get_same(k0, "message"@, jstr(error_message(e)));
    let extras = error_extra_fields(e);
    assert forall|i: int| 0 <= i < extras.len() implies #[trigger] extras[i].0 != "kind"@
        && extras[i].0 != "message"@ by {
        assert(extras[i].0.len() != 4 || extras[i].0[0] != 'k');
        assert(extras[i].0.len() != 7 || extras[i].0[0] != 'm');
    }
    lemma_insert_all_keeps(base, extras, "kind"@);
    lemma_insert_all_keeps(base, extras, "message"@);
}


/// The position of an error's variant in the declaration of the error type;
/// two errors have the same variant exactly when these agree.
pub open spec fn error_variant(e: ToolErrorModel) -> int {
    match e {
        ToolErrorModel::ArgumentsMustBeObject => 0,
        ToolErrorModel::MissingField { .. } => 1,
        ToolErrorModel::UnexpectedNull { .. } => 2,
        ToolErrorModel::DuplicateField { .. } => 3,
        ToolErrorModel::DecodeField { .. } => 4,
        ToolErrorModel::UnknownField { .. } => 5,
        ToolErrorModel::InvalidFieldValue { .. } => 6,
        ToolErrorModel::Validation { .. } => 7,
        ToolErrorModel::InvalidToolOutput { .. } => 8,
        ToolErrorModel::Conversion { .. } => 9,
        ToolErrorModel::Handler { .. } => 10,
        ToolErrorModel::InvalidSchema { .. } => 11,
        ToolErrorModel::DuplicateTool { .. } => 12,
        ToolErrorModel::UnknownTool { .. } => 13,
        ToolErrorModel::DuplicateResource { .. } => 14,
        ToolErrorModel::UnknownResource { .. } => 15,
        ToolErrorModel::DuplicatePrompt { .. } => 16,
        ToolErrorModel::UnknownPrompt { .. } => 17,
    }
}

/// The kind names the variant and nothing else: two errors report the same
/// kind exactly when they are of the same variant, whatever their fields hold.
pub proof fn lemma_kind_identifies_variant(a: ToolErrorModel, b: ToolErrorModel)
    ensures
        error_kind(a) == error_kind(b) <==> error_variant(a) == error_variant(b),
{
    reveal_strlit("arguments_must_be_object");
    reveal_strlit("missing_field");
    reveal_strlit("unexpected_null");
    reveal_strlit("duplicate_field");
    reveal_strlit("decode_field");
    reveal_strlit("unknown_field");
    reveal_strlit("invalid_field_value");
    reveal_strlit("validation");
    reveal_strlit("invalid_tool_output");
    reveal_strlit("conversion");
    reveal_strlit("handler");
    reveal_strlit("invalid_schema");
    reveal_strlit("duplicate_tool");
    reveal_strlit("unknown_tool");
    reveal_strlit("duplicate_resource");
    reveal_strlit("unknown_resource");
    reveal_strlit("duplicate_prompt");
    reveal_strlit("unknown_prompt");
    let (ka, kb) = (error_kind(a), error_kind(b));
    if ka == kb {
        assert(ka.len() == kb.len() && ka[0] == kb[0] && ka[2] == kb[2] && ka[8] == kb[8]);
    }
}

} // verus!
