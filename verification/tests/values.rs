use component_shape::{
    object_schema, tool_definition_for_input, tool_definition_for_input_with_metadata, JsonMap,
    JsonNumber, JsonValue, McpAny, McpArguments, McpIconTheme, McpJsonDecode, McpJsonSchema,
    McpRange,
    McpSchema, McpToolCall, McpToolError, McpToolIcon, McpToolInput, McpToolMetadata,
    McpToolValue, McpTypedTool,
};
use serde_json::Value;

fn to_json(value: &Value) -> JsonValue {
    match value {
        Value::Null => JsonValue::Null,
        Value::Bool(b) => JsonValue::Bool(*b),
        Value::Number(n) => {
            if let Some(u) = n.as_u64() {
                JsonValue::Number(JsonNumber::PosInt(u))
            } else if let Some(i) = n.as_i64() {
                JsonValue::Number(JsonNumber::NegInt(i))
            } else {
                JsonValue::Number(JsonNumber::Float(n.to_string()))
            }
        },
        Value::String(s) => JsonValue::String(s.clone()),
        Value::Array(items) => JsonValue::Array(items.iter().map(to_json).collect()),
        Value::Object(map) => {
            let mut object = JsonMap::new();
            for (key, item) in map {
                object.insert(key.clone(), to_json(item));
            }
            JsonValue::Object(object)
        },
    }
}

fn from_json(value: &JsonValue) -> Value {
    match value {
        JsonValue::Null => Value::Null,
        JsonValue::Bool(b) => Value::Bool(*b),
        JsonValue::Number(JsonNumber::PosInt(u)) => Value::from(*u),
        JsonValue::Number(JsonNumber::NegInt(i)) => Value::from(*i),
        JsonValue::Number(JsonNumber::Float(text)) => {
            let parsed: f64 = text.parse().expect("float text should parse");
            Value::Number(serde_json::Number::from_f64(parsed).expect("float should be finite"))
        },
        JsonValue::String(s) => Value::String(s.clone()),
        JsonValue::Array(items) => Value::Array(items.iter().map(from_json).collect()),
        JsonValue::Object(map) => Value::Object(map_value(map)),
    }
}

fn map_value(map: &JsonMap) -> serde_json::Map<String, Value> {
    let mut out = serde_json::Map::new();
    for i in 0..map.len() {
        out.insert(map.key_at(i).clone(), from_json(map.value_at(i)));
    }
    out
}

fn v(text: &str) -> Value {
    serde_json::from_str(text).expect("test JSON should parse")
}

fn j(text: &str) -> JsonValue {
    to_json(&v(text))
}

fn sv(schema: &McpSchema) -> Value {
    from_json(schema.as_value())
}

struct EchoInput {
    #[allow(dead_code)]
    value: String,
}

impl McpToolInput for EchoInput {
    fn input_schema() -> McpSchema {
        object_schema(
            vec![("value".to_string(), String::json_schema())],
            vec!["value".to_string()],
        )
    }

    fn from_tool_call(call: McpToolCall) -> Result<Self, McpToolError> {
        let mut arguments: McpArguments = call.into_arguments();
        let value = arguments.take_required_tool_value::<String>("value")?;
        arguments.finish()?;
        Ok(EchoInput { value })
    }
}

#[test]
fn explicit_any_value_accepts_unconstrained_json() {
    for raw in [
        "null",
        "true",
        "42",
        r#""text""#,
        r#"["nested", null]"#,
        r#"{ "nested": { "value": true } }"#,
    ] {
        let decoded = <McpAny as McpToolValue>::from_tool_value("payload", j(raw))
            .expect("McpAny should accept any JSON value");

        assert_eq!(from_json(&decoded.into_value()), v(raw));
    }
}

#[test]
fn tool_value_trait_pairs_schema_and_strict_decode() {
    let schema = <McpRange<u32> as McpToolValue>::tool_value_schema();
    assert_eq!(sv(&schema)["type"], "object");
    assert_eq!(sv(&schema)["properties"]["min"]["anyOf"][0]["type"], "integer");

    let value = <McpRange<u32> as McpToolValue>::from_tool_value(
        "window",
        j(r#"{ "min": 1, "max": null }"#),
    )
    .expect("range value should decode");
    assert_eq!(value, McpRange::new(Some(1), None));

    let error = <String as McpToolValue>::from_tool_value("title", JsonValue::Null)
        .expect_err("null should not decode as a present string");
    assert!(matches!(error, McpToolError::UnexpectedNull { ref field } if field == "title"));

    let value = <Option<String> as McpToolValue>::from_tool_value("title", JsonValue::Null)
        .expect("nullable schema should decode null");
    assert_eq!(value, None);
}

#[test]
fn mcp_tool_call_normalizes_arguments() {
    let call = McpToolCall::from_value(None).expect("missing arguments are empty");
    assert!(call.arguments().is_empty());

    let call = McpToolCall::from_value(Some(j(r#"{ "value": 42 }"#)))
        .expect("object arguments are accepted");
    assert_eq!(map_value(call.arguments())["value"], 42);

    let error = McpToolCall::from_value(Some(j("42"))).expect_err("non-object arguments should fail");
    assert!(matches!(error, McpToolError::ArgumentsMustBeObject));
}

#[test]
fn mcp_arguments_decodes_tool_values_and_rejects_unknown_fields() {
    let call = McpToolCall::from_value(Some(j(r#"{
        "name": "Ada",
        "nickname": null,
        "limit": 2,
        "unused": true
    }"#)))
    .expect("object arguments are accepted");
    let mut arguments = call.into_arguments();

    let name = arguments
        .take_required_tool_value::<String>("name")
        .expect("name should decode");
    let nickname = arguments
        .take_present_tool_value::<Option<String>>("nickname")
        .expect("nickname should decode");
    let limit = arguments
        .take_present_tool_value::<usize>("limit")
        .expect("limit should decode");

    assert_eq!(name, "Ada");
    assert_eq!(nickname, Some(None));
    assert_eq!(limit, Some(2));
    assert!(matches!(
        arguments.finish(),
        Err(McpToolError::UnknownField { ref field }) if field == "unused"
    ));
}

#[test]
fn tool_value_usize_rejects_negative_values() {
    assert_eq!(
        <usize as McpToolValue>::from_tool_value("limit", j("10")).expect("usize should decode"),
        10
    );

    let error = <usize as McpToolValue>::from_tool_value("limit", j("-1"))
        .expect_err("negative should fail");
    assert!(matches!(error, McpToolError::DecodeField { field, .. } if field == "limit"));
}

#[test]
fn unit_tool_input_accepts_only_empty_arguments() {
    assert_eq!(sv(&<() as McpToolInput>::input_schema())["properties"], v("{}"));
    assert!(matches!(<() as McpToolInput>::from_tool_call(McpToolCall::empty()), Ok(())));
    assert!(matches!(
        <() as McpToolInput>::from_tool_call(
            McpToolCall::from_value(Some(j(r#"{ "extra": true }"#)))
                .expect("tool call should normalize")
        ),
        Err(McpToolError::UnknownField { ref field }) if field == "extra"
    ));
}

#[test]
fn tool_definition_for_input_uses_typed_schema() {
    let tool = tool_definition_for_input::<EchoInput>("echo", Some("Echo".to_string()), None, None)
        .expect("tool definition should build");
    fn assert_typed_tool(_tool: &McpTypedTool<EchoInput>) {}
    assert_typed_tool(&tool);

    assert_eq!(
        map_value(&tool.definition().input_schema)["properties"]["value"]["type"],
        "string"
    );
}

#[test]
fn tool_definition_for_input_accepts_typed_metadata() {
    let icons: &'static [McpToolIcon] = Box::leak(Box::new([McpToolIcon::new(
        "https://example.com/echo.svg",
    )
    .with_mime_type("image/svg+xml")
    .with_sizes(&["any"])
    .with_theme(McpIconTheme::Dark)]));

    let metadata = McpToolMetadata::new()
        .with_name("custom_echo")
        .with_title("Custom echo")
        .with_description("Echoes a value.")
        .with_read_only_hint(true)
        .with_destructive_hint(false)
        .with_open_world_hint(false)
        .with_icons(icons);
    let tool = tool_definition_for_input_with_metadata::<EchoInput>("echo", metadata, None)
        .expect("tool definition should build");
    let tool = tool.definition();

    assert_eq!(tool.name, "custom_echo");
    assert_eq!(tool.title.as_deref(), Some("Custom echo"));
    assert_eq!(tool.description.as_deref(), Some("Echoes a value."));
    let annotations = tool
        .annotations
        .as_ref()
        .expect("metadata annotations should be applied");
    assert_eq!(annotations.title.as_deref(), Some("Custom echo"));
    assert_eq!(annotations.read_only_hint, Some(true));
    assert_eq!(annotations.destructive_hint, Some(false));
    assert_eq!(annotations.open_world_hint, Some(false));
    let icons = tool.icons.as_ref().expect("metadata icons should be applied");
    assert_eq!(icons[0].src, "https://example.com/echo.svg");
    assert_eq!(icons[0].mime_type.as_deref(), Some("image/svg+xml"));
    assert_eq!(icons[0].sizes.as_ref().expect("sizes should be set")[0], "any");
    assert!(matches!(icons[0].theme, Some(McpIconTheme::Dark)));
    assert_eq!(map_value(&tool.input_schema)["properties"]["value"]["type"], "string");
}

#[test]
fn primitive_decoders_accept_matching_json_and_name_the_field() {
    assert_eq!(<bool as McpToolValue>::from_tool_value("flag", j("true")).expect("bool"), true);
    assert_eq!(<i8 as McpToolValue>::from_tool_value("n", j("-128")).expect("i8"), -128);
    assert!(matches!(
        <i8 as McpToolValue>::from_tool_value("n", j("-129")),
        Err(McpToolError::DecodeField { ref field, .. }) if field == "n"
    ));
    assert_eq!(<u8 as McpToolValue>::from_tool_value("n", j("255")).expect("u8"), 255);
    assert!(matches!(
        <u8 as McpToolValue>::from_tool_value("n", j("256")),
        Err(McpToolError::DecodeField { .. })
    ));
    assert_eq!(
        <i64 as McpToolValue>::from_tool_value("n", j("-9223372036854775808")).expect("i64"),
        i64::MIN
    );
    assert_eq!(
        <u64 as McpToolValue>::from_tool_value("n", j("18446744073709551615")).expect("u64"),
        u64::MAX
    );
    assert_eq!(<char as McpToolValue>::from_tool_value("c", j(r#""x""#)).expect("char"), 'x');
    assert_eq!(
        <Vec<u16> as McpToolValue>::from_tool_value("list", j("[1, 2, 3]")).expect("list"),
        vec![1, 2, 3]
    );
    assert!(matches!(
        <Vec<u16> as McpToolValue>::from_tool_value("list", j("[1, -2]")),
        Err(McpToolError::DecodeField { ref field, .. }) if field == "list"
    ));
}

#[test]
fn json_schema_trait_supports_aliases_and_containers() {
    type UserId = u64;

    assert_eq!(sv(&<UserId as McpJsonSchema>::json_schema())["type"], "integer");
    assert_eq!(
        sv(&<Option<Vec<String>> as McpJsonSchema>::json_schema())["anyOf"][0]["items"]["type"],
        "string"
    );
    assert_eq!(
        sv(&<std::collections::HashSet<String> as McpJsonSchema>::json_schema())["uniqueItems"],
        true
    );
    assert_eq!(
        sv(&<std::collections::BTreeMap<String, u32> as McpJsonSchema>::json_schema())
            ["additionalProperties"]["type"],
        "integer"
    );
    assert_eq!(
        sv(&<serde_json::Map<String, u32> as McpJsonSchema>::json_schema())["additionalProperties"]
            ["type"],
        "integer"
    );
    assert_eq!(sv(&<McpAny as McpJsonSchema>::json_schema()), v("{}"));
    assert_eq!(sv(&<serde_json::Value as McpJsonSchema>::json_schema()), v("{}"));
    assert_eq!(sv(&<&str as McpJsonSchema>::json_schema())["type"], "string");
    assert_eq!(
        sv(&<std::borrow::Cow<'static, str> as McpJsonSchema>::json_schema())["type"],
        "string"
    );
    assert_eq!(sv(&<[String] as McpJsonSchema>::json_schema())["items"]["type"], "string");
    assert_eq!(
        sv(&<McpRange<u32> as McpJsonSchema>::json_schema())["properties"]["min"]["anyOf"][0]["type"],
        "integer"
    );
    assert_eq!(
        sv(&<(u32, String) as McpJsonSchema>::json_schema())["prefixItems"][0]["type"],
        "integer"
    );
    assert_eq!(
        sv(&<(u32, String) as McpJsonSchema>::json_schema())["prefixItems"][1]["type"],
        "string"
    );
    assert_eq!(sv(&<(u32, String) as McpJsonSchema>::json_schema())["minItems"], 2);
    assert_eq!(
        <McpRange<u32> as McpJsonDecode>::decode_json("range", j(r#"{ "min": 1, "max": null }"#))
            .expect("range object should decode"),
        McpRange::new(Some(1), None)
    );
    assert!(<McpRange<u32> as McpJsonDecode>::decode_json(
        "range",
        j(r#"{ "min": 1, "step": 2 }"#)
    )
    .is_err());
}

#[test]
fn dates_and_paths_decode_from_strings() {
    let date = <chrono::NaiveDate as McpToolValue>::from_tool_value("day", j(r#""2024-01-31""#))
        .expect("date should decode");
    assert_eq!(date, chrono::NaiveDate::from_ymd_opt(2024, 1, 31).expect("valid date"));
    assert!(matches!(
        <chrono::NaiveDate as McpToolValue>::from_tool_value("day", j(r#""2024-13-01""#)),
        Err(McpToolError::DecodeField { ref field, .. }) if field == "day"
    ));
    let moment = <chrono::NaiveDateTime as McpToolValue>::from_tool_value(
        "at",
        j(r#""2024-01-31T08:30:00""#),
    )
    .expect("date-time should decode");
    assert_eq!(moment.to_string(), "2024-01-31 08:30:00");
    let path = <std::path::PathBuf as McpToolValue>::from_tool_value("path", j(r#""a/b.txt""#))
        .expect("path should decode");
    assert_eq!(path, std::path::PathBuf::from("a/b.txt"));
}

#[derive(Debug, PartialEq)]
struct Preferences {
    email_updates: bool,
    topics: Vec<String>,
}

impl McpJsonSchema for Preferences {
    fn json_schema() -> McpSchema {
        McpSchema::new(j(r#"{
            "type": "object",
            "properties": {
                "email": {
                    "type": "boolean",
                    "x-mcpAliases": ["emailUpdates"],
                    "x-mcpDecodeName": "email_updates"
                },
                "topics": { "type": "array", "items": { "type": "string" } }
            },
            "required": ["email"],
            "additionalProperties": false
        }"#))
    }
}

impl McpJsonDecode for Preferences {
    fn decode_json(field: &str, value: JsonValue) -> Result<Self, McpToolError> {
        let JsonValue::Object(mut object) = value else {
            return Err(McpToolError::decode(field, "expected an object"));
        };
        let email_updates = match object.remove("email_updates") {
            Some(v) => bool::decode_json(field, v)?,
            None => return Err(McpToolError::missing_field("email_updates")),
        };
        let topics = match object.remove("topics") {
            Some(v) => Vec::<String>::decode_json(field, v)?,
            None => Vec::new(),
        };
        Ok(Preferences { email_updates, topics })
    }
}

#[test]
fn tool_value_trait_enforces_closed_object_schema_before_serde() {
    let value = <Preferences as McpToolValue>::from_tool_value(
        "preferences",
        j(r#"{ "email": true, "topics": ["rust"] }"#),
    )
    .expect("alias should decode after schema validation");
    assert_eq!(value, Preferences { email_updates: true, topics: vec!["rust".to_string()] });

    let error = <Preferences as McpToolValue>::from_tool_value(
        "preferences",
        j(r#"{ "email": true, "emailUpdates": false }"#),
    )
    .expect_err("primary and alias should be rejected as duplicate input");
    assert!(matches!(error, McpToolError::DuplicateField { ref field } if field == "preferences.email"));

    let error = <Preferences as McpToolValue>::from_tool_value(
        "preferences",
        j(r#"{ "email": true, "unexpected": true }"#),
    )
    .expect_err("unknown nested field should be rejected before decoding");
    assert!(matches!(error, McpToolError::UnknownField { ref field } if field == "preferences.unexpected"));

    let error = <Preferences as McpToolValue>::from_tool_value("preferences", j("{}"))
        .expect_err("missing required nested field should be rejected before decoding");
    assert!(matches!(error, McpToolError::MissingField { ref field } if field == "preferences.email"));
}

#[derive(Debug, PartialEq)]
enum IssueState {
    Open,
    InReview,
}

impl McpJsonSchema for IssueState {
    fn json_schema() -> McpSchema {
        McpSchema::new(j(r#"{
            "type": "string",
            "enum": ["Open", "in-review", "reviewing"],
            "x-mcpEnumDecodeAliases": { "in-review": "InReview", "reviewing": "InReview" }
        }"#))
    }
}

impl McpJsonDecode for IssueState {
    fn decode_json(field: &str, value: JsonValue) -> Result<Self, McpToolError> {
        match value {
            JsonValue::String(s) if s == "Open" => Ok(IssueState::Open),
            JsonValue::String(s) if s == "InReview" => Ok(IssueState::InReview),
            _ => Err(McpToolError::decode(field, "unknown variant")),
        }
    }
}

#[test]
fn tool_value_trait_normalizes_mcp_enum_aliases_before_serde() {
    let value = <IssueState as McpToolValue>::from_tool_value("state", j(r#""reviewing""#))
        .expect("mcp enum alias should decode");

    assert_eq!(value, IssueState::InReview);
}

#[test]
fn tuple_values_decode_position_by_position() {
    let (name, flag) =
        <(String, bool) as McpJsonDecode>::decode_json("pair", j(r#"["a", true]"#)).unwrap();
    assert_eq!(name, "a");
    assert!(flag);
    let (x, y, z) =
        <(u8, i32, String) as McpJsonDecode>::decode_json("triple", j(r#"[1, -2, "c"]"#)).unwrap();
    assert_eq!((x, y, z.as_str()), (1, -2, "c"));
    let short = <(String, bool) as McpJsonDecode>::decode_json("pair", j(r#"["a"]"#)).unwrap_err();
    assert_eq!(short.kind(), "decode_field");
    assert!(<(String, bool) as McpJsonDecode>::decode_json("pair", j(r#"[true, true]"#)).is_err());
    assert!(<(u8,) as McpJsonDecode>::decode_json("single", j(r#"{"0": 1}"#)).is_err());
    let (only,) = <(u8,) as McpJsonDecode>::decode_json("single", j("[9]")).unwrap();
    assert_eq!(only, 9);
}

#[test]
fn boxed_values_decode_their_contents() {
    let boxed = <Box<u16> as McpJsonDecode>::decode_json("count", j("300")).unwrap();
    assert_eq!(*boxed, 300);
    assert!(<Box<u8> as McpJsonDecode>::decode_json("count", j("300")).is_err());
}

fn decode_message<T: McpJsonDecode>(text: &str) -> String {
    match T::decode_json("f", j(text)) {
        Err(McpToolError::DecodeField { field, message }) => {
            assert_eq!(field, "f");
            message
        },
        _ => panic!("expected a decode failure"),
    }
}

fn serde_message<T: serde::de::DeserializeOwned>(text: &str) -> String {
    serde_json::from_value::<T>(v(text)).err().expect("serde should reject").to_string()
}

#[test]
fn decode_failures_carry_serde_json_messages() {
    assert_eq!(decode_message::<usize>("-1"), "invalid value: integer `-1`, expected usize");
    assert_eq!(decode_message::<u8>("300"), serde_message::<u8>("300"));
    assert_eq!(decode_message::<i8>("-129"), serde_message::<i8>("-129"));
    assert_eq!(decode_message::<u32>("1.5"), serde_message::<u32>("1.5"));
    assert_eq!(decode_message::<String>("5"), serde_message::<String>("5"));
    assert_eq!(decode_message::<bool>("\"x\""), serde_message::<bool>("\"x\""));
    assert_eq!(decode_message::<char>("\"ab\""), serde_message::<char>("\"ab\""));
    assert_eq!(decode_message::<()>("1"), serde_message::<()>("1"));
    assert_eq!(decode_message::<Vec<u8>>("{}"), serde_message::<Vec<u8>>("{}"));
    assert_eq!(decode_message::<Vec<u8>>("[1, -1]"), serde_message::<Vec<u8>>("[1, -1]"));
    assert_eq!(decode_message::<(u8, u8)>("[1]"), serde_message::<(u8, u8)>("[1]"));
    assert_eq!(decode_message::<(u8, u8)>("[1, 2, 3]"), serde_message::<(u8, u8)>("[1, 2, 3]"));
    assert_eq!(decode_message::<(u8,)>("true"), serde_message::<(u8,)>("true"));
    assert_eq!(<i128 as McpJsonDecode>::decode_json("f", j("-5")).unwrap(), -5);
    assert_eq!(<char as McpJsonDecode>::decode_json("f", j("\"é\"")).unwrap(), 'é');
    <() as McpJsonDecode>::decode_json("f", j("null")).unwrap();
}

#[test]
fn decimals_decode_through_serde() {
    let expected: rust_decimal::Decimal = "1.25".parse().unwrap();
    let from_text =
        <rust_decimal::Decimal as McpJsonDecode>::decode_json("amount", j("\"1.25\"")).unwrap();
    assert_eq!(from_text, expected);
    let from_integer = <rust_decimal::Decimal as McpJsonDecode>::decode_json("amount", j("-7")).unwrap();
    assert_eq!(from_integer, rust_decimal::Decimal::from(-7));
    assert_eq!(
        decode_message::<rust_decimal::Decimal>("true"),
        serde_message::<rust_decimal::Decimal>("true")
    );
    assert_eq!(
        decode_message::<rust_decimal::Decimal>("\"abc\""),
        serde_message::<rust_decimal::Decimal>("\"abc\"")
    );
    let value = <rust_decimal::Decimal as McpToolValue>::from_tool_value("amount", j("\"2.5\"")).unwrap();
    assert_eq!(value, "2.5".parse::<rust_decimal::Decimal>().unwrap());
}

#[test]
fn borrowed_or_owned_text_decodes_as_owned() {
    let value = <std::borrow::Cow<'static, str> as McpToolValue>::from_tool_value("name", j("\"x\""))
        .unwrap();
    assert!(matches!(value, std::borrow::Cow::Owned(ref s) if s == "x"));
    assert_eq!(
        decode_message::<std::borrow::Cow<'static, str>>("1"),
        serde_message::<String>("1")
    );
}
