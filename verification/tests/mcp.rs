use component_shape::{
    apply_validation_schema_hints, apply_validation_schema_metadata,
    ensure_json_resource_specs_distinct, mcp_input_descriptor_value,
    normalize_value_against_schema, nullable_schema, schema_allows_null, schema_for_input, schema_object,
    serialize_handler_response, serialize_response_value, tool_definition, tool_definition_with_annotations,
    tool_error_result, tool_error_result_for, tool_name, validate_value_against_closed_schema,
    validation_issues_error, JsonMap, JsonNumber, JsonValue, McpAdditionalProperties, McpIconTheme,
    McpArguments, McpInput, McpJsonResourceSpec, McpSchema, McpSchemaNumber, McpToolAnnotations, McpToolError,
    McpToolIcon, McpToolMetadata, McpValidationIssue, McpValidationParam, McpValidationRule,
    McpValidationScope, McpValidationTarget, McpValidationTypeArgMode,
};
use component_shape::literal::literal_to_number_value;
use component_shape::smoke::{response_line_step, ResponseStep};
use serde_json::Value;

fn to_json(value: &Value) -> JsonValue {
    match value {
        Value::Null => JsonValue::Null,
        Value::Bool(b) => JsonValue::Bool(*b),
        Value::Number(n) => {
            if let Some(u) = n.as_u64() {
                JsonValue::Number(JsonNumber::PosInt(u))
            } else if let Some(i) = n.as_i64() {
                JsonValue::Number(JsonNumber::NegInt(i))
            } else {
                JsonValue::Number(JsonNumber::Float(n.to_string()))
            }
        },
        Value::String(s) => JsonValue::String(s.clone()),
        Value::Array(items) => JsonValue::Array(items.iter().map(to_json).collect()),
        Value::Object(map) => {
            let mut object = JsonMap::new();
            for (key, item) in map {
                object.insert(key.clone(), to_json(item));
            }
            JsonValue::Object(object)
        },
    }
}

fn from_json(value: &JsonValue) -> Value {
    match value {
        JsonValue::Null => Value::Null,
        JsonValue::Bool(b) => Value::Bool(*b),
        JsonValue::Number(JsonNumber::PosInt(u)) => Value::from(*u),
        JsonValue::Number(JsonNumber::NegInt(i)) => Value::from(*i),
        JsonValue::Number(JsonNumber::Float(text)) => {
            let parsed: f64 = text.parse().expect("float text should parse");
            Value::Number(serde_json::Number::from_f64(parsed).expect("float should be finite"))
        },
        JsonValue::String(s) => Value::String(s.clone()),
        JsonValue::Array(items) => Value::Array(items.iter().map(from_json).collect()),
        JsonValue::Object(map) => Value::Object(map_to_value(map)),
    }
}

fn map_to_value(map: &JsonMap) -> serde_json::Map<String, Value> {
    let mut out = serde_json::Map::new();
    for i in 0..map.len() {
        out.insert(map.key_at(i).clone(), from_json(map.value_at(i)));
    }
    out
}

fn v(text: &str) -> Value {
    serde_json::from_str(text).expect("test JSON should parse")
}

fn j(text: &str) -> JsonValue {
    to_json(&v(text))
}

fn schema(text: &str) -> McpSchema {
    McpSchema::new(j(text))
}

fn sv(schema: &McpSchema) -> Value {
    from_json(schema.as_value())
}

fn object_of(text: &str) -> JsonMap {
    match j(text) {
        JsonValue::Object(map) => map,
        _ => panic!("test JSON should be an object"),
    }
}

#[test]
fn schema_description_helpers_only_mutate_object_schemas() {
    let described = schema(r#"{ "type": "string" }"#).with_description("Search text");

    assert_eq!(sv(&described)["description"], "Search text");

    let boolean_schema = schema("true").with_description("Ignored");

    assert_eq!(sv(&boolean_schema), v("true"));
}

#[test]
fn schema_builders_emit_common_json_schema_keywords() {
    let schema = McpSchema::object()
        .with_properties(vec![
            (
                "state".to_string(),
                McpSchema::string().with_enum_values(vec![j(r#""open""#), j(r#""closed""#)]),
            ),
            (
                "limit".to_string(),
                McpSchema::integer()
                    .with_minimum(McpSchemaNumber::from_u64(0))
                    .with_default(JsonValue::Number(JsonNumber::PosInt(25))),
            ),
            (
                "tags".to_string(),
                McpSchema::array(McpSchema::string()).with_unique_items(true),
            ),
        ])
        .with_required(vec!["state".to_string()])
        .with_additional_properties(McpAdditionalProperties::Allowed(false));
    let schema = sv(&schema);

    assert_eq!(schema["type"], "object");
    assert_eq!(schema["properties"]["state"]["enum"], v(r#"["open", "closed"]"#));
    assert_eq!(schema["properties"]["limit"]["minimum"], 0);
    assert_eq!(schema["properties"]["limit"]["default"], 25);
    assert_eq!(schema["properties"]["tags"]["items"]["type"], "string");
    assert_eq!(schema["properties"]["tags"]["uniqueItems"], true);
    assert_eq!(schema["required"], v(r#"["state"]"#));
    assert_eq!(schema["additionalProperties"], false);
}

#[test]
fn schema_for_input_maps_range_dates() {
    let schema = sv(&schema_for_input(McpInput::date_range()));

    assert_eq!(schema["properties"]["min"]["anyOf"][0]["format"], "date");
    assert_eq!(schema["properties"]["max"]["anyOf"][1]["type"], "null");
}

#[test]
fn schema_for_input_distinguishes_any_from_unsupported() {
    assert_eq!(sv(&schema_for_input(McpInput::any())), v("{}"));
    assert_eq!(sv(&schema_for_input(McpInput::unsupported())), v(r#"{ "not": {} }"#));
}

#[test]
fn schema_for_input_distinguishes_lists_from_sets() {
    let list_schema = sv(&schema_for_input(McpInput::string_list()));
    let set_schema = sv(&schema_for_input(McpInput::string_set()));

    assert_eq!(list_schema["type"], "array");
    assert!(list_schema["uniqueItems"].is_null());
    assert_eq!(set_schema["type"], "array");
    assert_eq!(set_schema["uniqueItems"], true);
}

#[test]
fn mcp_input_descriptor_value_describes_supported_shapes() {
    assert_eq!(
        from_json(&mcp_input_descriptor_value(McpInput::unsupported())),
        v(r#"{ "supported": false, "shape": "unsupported" }"#)
    );
    assert_eq!(
        from_json(&mcp_input_descriptor_value(McpInput::string_set())),
        v(r#"{ "supported": true, "shape": "set", "items": "string" }"#)
    );
    assert_eq!(
        from_json(&mcp_input_descriptor_value(McpInput::date_range())),
        v(r#"{ "supported": true, "shape": "range", "bound": "date" }"#)
    );
}

#[test]
fn schema_allows_null_matches_common_schema_forms() {
    assert!(schema_allows_null(&schema("{}")));
    assert!(schema_allows_null(&schema(
        r#"{ "anyOf": [ { "type": "string" }, { "type": "null" } ] }"#
    )));
    assert!(schema_allows_null(&schema(r#"{ "type": ["string", "null"] }"#)));
    assert!(!schema_allows_null(&schema(r#"{ "type": "string" }"#)));
}

#[test]
fn schema_object_rejects_non_object_values() {
    let object = schema_object("input_schema", schema(r#"{ "type": "object" }"#))
        .expect("schema should be accepted");
    assert_eq!(Value::Object(map_to_value(&object))["type"], "object");

    let error = schema_object("input_schema", schema("null"))
        .expect_err("schema should be rejected");
    assert!(error.message().contains("input_schema"));
}

#[test]
fn schema_normalization_covers_composites_aliases_and_collection_items() {
    let enum_alias = r#"{
        "type": "string",
        "enum": ["ready"],
        "x-mcpEnumDecodeAliases": { "prepared": "ready" }
    }"#;
    let any_of = j(&format!(r#"{{ "anyOf": [ {{ "type": "integer" }}, {enum_alias} ] }}"#));
    assert_eq!(
        from_json(&normalize_value_against_schema(&any_of, j(r#""prepared""#))),
        v(r#""ready""#)
    );
    assert_eq!(
        from_json(&normalize_value_against_schema(
            &j(&format!(r#"{{ "oneOf": [false, {enum_alias}] }}"#)),
            j(r#""prepared""#)
        )),
        v(r#""ready""#)
    );

    let object_schema = format!(
        r#"{{
        "type": "object",
        "properties": {{
            "wire": {{
                "type": "string",
                "x-mcpAliases": ["alias"],
                "x-mcpDecodeName": "rust_name",
                "x-mcpEnumDecodeAliases": {{ "prepared": "ready" }}
            }}
        }},
        "additionalProperties": {enum_alias}
    }}"#
    );
    assert_eq!(
        from_json(&normalize_value_against_schema(
            &j(&object_schema),
            j(r#"{ "alias": "prepared", "extra": "prepared" }"#)
        )),
        v(r#"{ "rust_name": "ready", "extra": "ready" }"#)
    );

    let all_of = j(&format!(r#"{{ "allOf": [true, {object_schema}] }}"#));
    assert_eq!(
        from_json(&normalize_value_against_schema(&all_of, j(r#"{ "wire": "prepared" }"#))),
        v(r#"{ "rust_name": "ready" }"#)
    );
    assert_eq!(
        from_json(&normalize_value_against_schema(
            &j(&format!(r#"{{ "items": {enum_alias} }}"#)),
            j(r#"["prepared"]"#)
        )),
        v(r#"["ready"]"#)
    );
    assert_eq!(
        from_json(&normalize_value_against_schema(
            &j(&format!(r#"{{ "prefixItems": [{enum_alias}] }}"#)),
            j(r#"["prepared", "unchanged"]"#)
        )),
        v(r#"["ready", "unchanged"]"#)
    );

    for value in ["null", "true", "1", "1.5", r#""ready""#, "[]"] {
        let schema = j(r#"{ "anyOf": [true] }"#);
        assert_eq!(from_json(&normalize_value_against_schema(&schema, j(value))), v(value));
    }
}

#[test]
fn closed_schema_validation_covers_composites_arrays_and_nested_objects() {
    let object_a = r#"{
        "type": "object",
        "required": ["a"],
        "additionalProperties": false,
        "properties": { "a": { "type": "integer" } }
    }"#;
    let object_b = r#"{
        "type": ["null", "object"],
        "required": ["b"],
        "additionalProperties": false,
        "properties": { "b": { "type": "integer" } }
    }"#;

    for schema in [
        j(&format!(r#"{{ "anyOf": [false, {object_a}, {object_b}] }}"#)),
        j(&format!(r#"{{ "oneOf": [{object_a}, {object_b}] }}"#)),
    ] {
        validate_value_against_closed_schema("input", &schema, &j(r#"{ "b": 1 }"#))
            .expect("one applicable object branch should accept the value");
        assert!(validate_value_against_closed_schema("input", &schema, &j(r#"{ "c": 1 }"#)).is_err());
    }

    let all_of = j(r#"{
        "allOf": [
            { "type": "object", "required": ["a"] },
            { "type": "object", "required": ["b"] }
        ]
    }"#);
    validate_value_against_closed_schema("", &all_of, &j(r#"{ "a": 1, "b": 2 }"#))
        .expect("all object branches should accept the value");

    let array = j(r#"{
        "anyOf": [{ "type": "array" }],
        "items": {
            "type": "object",
            "required": ["value"],
            "additionalProperties": false,
            "properties": { "value": { "type": "string" } }
        },
        "prefixItems": [
            {
                "type": "object",
                "required": ["value"],
                "additionalProperties": false,
                "properties": { "value": { "type": "string" } }
            }
        ]
    }"#);
    validate_value_against_closed_schema("items", &array, &j(r#"[{ "value": "ok" }]"#))
        .expect("nested array objects should validate");
    assert!(validate_value_against_closed_schema("items", &array, &j(r#"[{ "extra": true }]"#)).is_err());

    assert!(validate_value_against_closed_schema("value", &j("true"), &j("1")).is_ok());
    assert!(validate_value_against_closed_schema("value", &j("{}"), &JsonValue::Null).is_ok());
}

#[test]
fn validation_schema_metadata_attaches_rules_and_hints() {
    let params: &'static [McpValidationParam] = Box::leak(Box::new([
        McpValidationParam::literal("min", "2"),
        McpValidationParam::literal("max", "8"),
    ]));
    let rules = [McpValidationRule::new(
        McpValidationScope::Field,
        "LenValidation",
        "koruma_collection::collection::LenValidation",
        Some("Title"),
        McpValidationTypeArgMode::Infer,
        params,
    )
    .with_target(McpValidationTarget::Default)];
    let mut object = object_of(r#"{ "type": "string" }"#);

    apply_validation_schema_metadata(&mut object, "x-testValidation", &rules);
    let object = Value::Object(map_to_value(&object));

    assert_eq!(object["minLength"], v("2"));
    assert_eq!(object["maxLength"], v("8"));
    assert_eq!(object["x-testValidation"][0]["scope"], v(r#""field""#));
    assert_eq!(
        object["x-testValidation"][0]["path"],
        v(r#""koruma_collection::collection::LenValidation""#)
    );
    assert_eq!(object["x-testValidation"][0]["target"], v(r#""default""#));
    assert_eq!(object["x-testValidation"][0]["label"], v(r#""Title""#));
}

#[test]
fn validation_issues_error_preserves_field_filter_and_rule_details() {
    let params: &'static [McpValidationParam] =
        Box::leak(Box::new([McpValidationParam::literal("min", "1")]));
    let rule = McpValidationRule::new(
        McpValidationScope::Filter,
        "LenValidation",
        "LenValidation",
        None,
        McpValidationTypeArgMode::Infer,
        params,
    );
    let error = validation_issues_error(vec![
        McpValidationIssue::required("title"),
        McpValidationIssue::for_filter_rule("name", rule, "name validation failed"),
    ]);
    let structured = from_json(&error.to_structured_value());

    assert_eq!(structured["kind"], v(r#""validation""#));
    assert_eq!(structured["details"][0]["field"], v(r#""title""#));
    assert_eq!(structured["details"][0]["validator"], v(r#""required""#));
    assert_eq!(structured["details"][1]["scope"], v(r#""filter""#));
    assert_eq!(structured["details"][1]["filter"], v(r#""name""#));
    assert_eq!(structured["details"][1]["params"][0]["value"], v(r#""1""#));
}

#[test]
fn validation_schema_hints_cover_ranges_non_empty_values_and_arrays() {
    let range_params: &'static [McpValidationParam] = Box::leak(Box::new([
        McpValidationParam::literal("min", "-2.5"),
        McpValidationParam::literal("max", "18446744073709551615"),
        McpValidationParam::literal("exclusive_min", "true"),
        McpValidationParam::literal("exclusive_max", "false"),
    ]));
    let len_params: &'static [McpValidationParam] = Box::leak(Box::new([
        McpValidationParam::literal("min", "2"),
        McpValidationParam::literal("max", "4"),
    ]));
    let range = McpValidationRule::new(
        McpValidationScope::Field,
        "RangeValidation",
        "validators::RangeValidation",
        None,
        McpValidationTypeArgMode::Omitted,
        range_params,
    );
    let len = McpValidationRule::new(
        McpValidationScope::Field,
        "LenValidation",
        "validators::LenValidation",
        None,
        McpValidationTypeArgMode::Omitted,
        len_params,
    );
    let non_empty = McpValidationRule::new(
        McpValidationScope::Field,
        "NonEmptyValidation",
        "validators::NonEmptyValidation",
        None,
        McpValidationTypeArgMode::Omitted,
        &[],
    );

    let mut number = match McpSchema::number().into_value() {
        JsonValue::Object(map) => map,
        _ => panic!("number schema should be object"),
    };
    apply_validation_schema_hints(&mut number, &[range]);
    let number = Value::Object(map_to_value(&number));
    assert_eq!(number["exclusiveMinimum"], v("-2.5"));
    assert_eq!(number["maximum"], Value::from(18446744073709551615_u64));

    let mut array = match McpSchema::array(McpSchema::string()).into_value() {
        JsonValue::Object(map) => map,
        _ => panic!("array schema should be object"),
    };
    apply_validation_schema_hints(&mut array, &[len, non_empty]);
    let array = Value::Object(map_to_value(&array));
    assert_eq!(array["minItems"], 2);
    assert_eq!(array["maxItems"], 4);

    let mut string = match McpSchema::string().into_value() {
        JsonValue::Object(map) => map,
        _ => panic!("string schema should be object"),
    };
    apply_validation_schema_hints(&mut string, &[non_empty]);
    assert_eq!(Value::Object(map_to_value(&string))["minLength"], 1);

    let mut any_of = object_of(r#"{ "anyOf": [false, { "type": "string" }] }"#);
    apply_validation_schema_hints(&mut any_of, &[non_empty]);
    assert_eq!(Value::Object(map_to_value(&any_of))["minLength"], 1);

    let mut object = object_of(r#"{ "type": "object" }"#);
    apply_validation_schema_hints(&mut object, &[range, len, non_empty]);
    assert_eq!(Value::Object(map_to_value(&object)), v(r#"{ "type": "object" }"#));
}

#[test]
fn validation_metadata_accessors_and_issue_builders_are_structured() {
    let params: &'static [McpValidationParam] = Box::leak(Box::new([
        McpValidationParam::literal("min", "1"),
        McpValidationParam::expr("max", "limits.max"),
    ]));
    let rule = McpValidationRule::new(
        McpValidationScope::Element,
        "LenValidation",
        "validators::LenValidation::<String>",
        Some("tag length"),
        McpValidationTypeArgMode::Explicit,
        params,
    )
    .with_target(McpValidationTarget::Unwrapped);

    assert_eq!(params[1].expr_value(), Some("limits.max"));

    let literal = std::hint::black_box(McpValidationParam::literal("min", "3"));
    assert_eq!(literal.name(), "min");
    assert_eq!(literal.literal_value(), Some("3"));
    assert_eq!(literal.expr_value(), None);
    let expr = std::hint::black_box(McpValidationParam::expr("max", "limits.max"));
    assert_eq!(expr.name(), "max");
    assert_eq!(expr.literal_value(), None);
    assert_eq!(expr.expr_value(), Some("limits.max"));
    assert_eq!(rule.type_arg_mode(), McpValidationTypeArgMode::Explicit);
    assert_eq!(from_json(&rule.to_value())["target"], "unwrapped");
    assert_eq!(from_json(&rule.to_value())["params"][1]["expr"], "limits.max");

    let issue = McpValidationIssue::for_rule("tags", rule, "too long").with_element_index(3);
    assert_eq!(issue.field(), Some("tags"));
    assert_eq!(issue.filter(), None);
    assert_eq!(from_json(&issue.to_value())["label"], "tag length");
    assert_eq!(from_json(&issue.to_value())["target"], "unwrapped");
    assert_eq!(from_json(&issue.to_value())["element_index"], 3);

    let issue = McpValidationIssue::form("invalid form").with_label("form");
    assert_eq!(from_json(&issue.to_value())["scope"], "form");
    assert_eq!(from_json(&issue.to_value())["label"], "form");
}

#[test]
fn tool_metadata_records_optional_overrides() {
    let sizes: &'static [&'static str] = Box::leak(Box::new(["48x48"]));
    let icons: &'static [McpToolIcon] = Box::leak(Box::new([McpToolIcon::new(
        "https://example.com/tool.png",
    )
    .with_mime_type("image/png")
    .with_sizes(sizes)
    .with_theme(McpIconTheme::Light)]));

    let metadata = McpToolMetadata::new()
        .with_name("custom_tool")
        .with_title("Custom tool")
        .with_description("Runs a custom tool.")
        .with_read_only_hint(true)
        .with_destructive_hint(false)
        .with_idempotent_hint(true)
        .with_open_world_hint(false)
        .with_icons(icons);

    assert_eq!(metadata.name(), Some("custom_tool"));
    assert_eq!(metadata.title(), Some("Custom tool"));
    assert_eq!(metadata.description(), Some("Runs a custom tool."));
    assert_eq!(metadata.read_only_hint(), Some(true));
    assert_eq!(metadata.destructive_hint(), Some(false));
    assert_eq!(metadata.idempotent_hint(), Some(true));
    assert_eq!(metadata.open_world_hint(), Some(false));
    assert_eq!(metadata.icons()[0].src(), "https://example.com/tool.png");
    assert_eq!(metadata.icons()[0].mime_type(), Some("image/png"));
    assert_eq!(metadata.icons()[0].sizes(), &["48x48"]);
    assert_eq!(metadata.icons()[0].theme(), Some(McpIconTheme::Light));
    let annotations = metadata
        .tool_annotations()
        .expect("metadata should publish tool annotations");
    assert_eq!(annotations.title.as_deref(), Some("Custom tool"));
    assert_eq!(annotations.read_only_hint, Some(true));
    assert_eq!(annotations.destructive_hint, Some(false));
    assert_eq!(annotations.idempotent_hint, Some(true));
    assert_eq!(annotations.open_world_hint, Some(false));
}

#[test]
fn tool_metadata_validates_optional_overrides() {
    let empty_src_icons: &'static [McpToolIcon] = Box::leak(Box::new([McpToolIcon::new("")]));

    assert!(McpToolMetadata::new()
        .with_name("custom_tool")
        .with_title("Custom tool")
        .with_description("Runs a custom tool.")
        .validate()
        .is_ok());
    assert!(McpToolMetadata::new().with_icons(empty_src_icons).validate().is_err());
    assert!(McpToolMetadata::new().with_name("bad name").validate().is_err());
    assert!(McpToolMetadata::new().with_description(" ").validate().is_err());
    assert!(McpToolMetadata::new()
        .with_read_only_hint(true)
        .with_destructive_hint(true)
        .validate()
        .is_err());
}

#[test]
fn tool_definition_validates_name_and_metadata() {
    assert!(tool_definition("", None, None, schema(r#"{ "type": "object" }"#), None).is_err());
    assert!(tool_definition("bad name", None, None, schema(r#"{ "type": "object" }"#), None).is_err());
    assert!(tool_definition(
        "valid_name",
        Some("".to_string()),
        None,
        schema(r#"{ "type": "object" }"#),
        None,
    )
    .is_err());
    assert!(tool_definition("valid", None, None, schema(r#""bad""#), None).is_err());
    assert!(tool_definition("valid", None, None, schema(r#"{ "type": "string" }"#), None).is_err());
    assert!(tool_definition(
        "valid",
        None,
        None,
        schema(r#"{ "type": "object" }"#),
        Some(schema("{}")),
    )
    .is_ok());
    assert!(tool_definition(
        "valid",
        None,
        None,
        schema(r#"{ "type": "object" }"#),
        Some(schema(r#"{ "type": "string" }"#)),
    )
    .is_ok());
    assert!(tool_definition(
        "valid",
        None,
        None,
        schema(r#"{ "type": "object" }"#),
        Some(schema(r#"{ "type": "object" }"#)),
    )
    .is_ok());
    assert!(tool_definition(
        "valid",
        None,
        None,
        schema(r#"{ "type": "object" }"#),
        Some(schema("false")),
    )
    .is_err());
    assert!(tool_definition_with_annotations(
        "valid",
        None,
        None,
        schema(r#"{ "type": "object" }"#),
        None,
        Some(McpToolAnnotations::new().read_only(true).destructive(true)),
    )
    .is_err());
}

#[test]
fn tool_definition_accepts_valid_name() {
    let definition = tool_definition(
        "good-name",
        Some("Good name".to_string()),
        None,
        schema(r#"{ "type": "object" }"#),
        None,
    )
    .expect("tool definition should build");

    assert_eq!(definition.name.to_string(), "good-name");
}

#[test]
fn tool_names_are_stable_and_mcp_friendly() {
    assert_eq!(tool_name("example::tools", "Contact", "tool_"), "example_tools_contact");
    assert_eq!(
        tool_name("example::forms", "ContactRequest", "tool_"),
        "example_forms_contact_request"
    );
    assert_eq!(tool_name("example::api", "HTTPServer2", "tool_"), "example_api_http_server2");
    assert_eq!(tool_name("123", "", "tool_"), "tool_123");
}

#[test]
fn tool_errors_include_structured_content() {
    let result = tool_error_result("plain failure");
    assert!(result.is_error);
    assert_eq!(
        from_json(result.structured_content.as_ref().expect("structured error"))["error"],
        v(r#"{ "kind": "error", "message": "plain failure" }"#)
    );

    let result = serialize_handler_response(Err("No client".to_string()));
    assert!(result.is_error);
    assert_eq!(
        from_json(result.structured_content.as_ref().expect("structured error"))["error"],
        v(r#"{ "kind": "handler", "message": "handler failed: No client", "detail": "No client" }"#)
    );

    let result = tool_error_result_for(McpToolError::validation_details(&vec![
        "missing required field `title`".to_string(),
        "name must not be empty".to_string(),
    ]));
    assert!(result.is_error);
    assert_eq!(
        from_json(result.structured_content.as_ref().expect("structured error"))["error"],
        v(r#"{
            "kind": "validation",
            "message": "validation failed: missing required field `title`; name must not be empty",
            "detail": "missing required field `title`; name must not be empty",
            "details": ["missing required field `title`", "name must not be empty"]
        }"#)
    );
}

#[test]
fn every_typed_tool_error_has_stable_structured_content() {
    let errors = vec![
        McpToolError::ArgumentsMustBeObject,
        McpToolError::missing_field("name"),
        McpToolError::UnexpectedNull { field: "name".to_string() },
        McpToolError::DuplicateField { field: "name".to_string() },
        McpToolError::decode("name", "bad string"),
        McpToolError::UnknownField { field: "extra".to_string() },
        McpToolError::invalid_field_value("state", "missing"),
        McpToolError::validation("invalid"),
        McpToolError::invalid_tool_output("tool", "bad output"),
        McpToolError::conversion("bad conversion"),
        McpToolError::handler("handler failed"),
        McpToolError::invalid_schema("input", "bad schema"),
        McpToolError::duplicate_tool("tool"),
        McpToolError::UnknownTool { name: "tool".to_string() },
        McpToolError::duplicate_resource("shape://one"),
        McpToolError::unknown_resource("shape://one"),
        McpToolError::duplicate_prompt("prompt"),
        McpToolError::unknown_prompt("prompt"),
    ];

    for error in errors {
        let structured = from_json(&error.to_structured_value());
        assert_eq!(structured["kind"], error.kind());
        assert_eq!(structured["message"], error.message());
    }
}

#[test]
fn json_resource_specs_reject_duplicate_uris() {
    let specs = vec![
        McpJsonResourceSpec::new(
            "gpui-form://forms/contact/descriptor",
            "contact_descriptor",
            None,
            None,
            j("{}"),
        )
        .expect("resource spec should build"),
        McpJsonResourceSpec::new(
            "gpui-form://forms/contact/descriptor",
            "duplicate_contact_descriptor",
            None,
            None,
            j("{}"),
        )
        .expect("resource spec should build"),
    ];

    let error = ensure_json_resource_specs_distinct(&specs).expect_err("duplicate URI should fail");
    let expected = McpToolError::duplicate_resource("gpui-form://forms/contact/descriptor");
    assert_eq!(error.kind(), expected.kind());
    assert_eq!(error.message(), expected.message());
    assert_eq!(from_json(&error.to_structured_value()), from_json(&expected.to_structured_value()));
}

#[test]
fn nullable_schema_accepts_null_whatever_the_schema() {
    for text in [r#"{ "type": "string" }"#, "false", r#"{ "enum": [1, 2] }"#, "{}"] {
        assert!(schema_allows_null(&nullable_schema(schema(text))), "schema: {text}");
    }
    assert!(!schema_allows_null(&schema(r#"{ "type": "string" }"#)));
}

#[test]
fn taking_one_argument_leaves_the_others() {
    let mut arguments = McpArguments::new(object_of(r#"{ "a": 1, "b": "two", "c": null }"#));
    let taken = arguments.take_raw("b").expect("b is present");
    assert_eq!(from_json(&taken), v(r#""two""#));
    assert_eq!(Value::Object(map_to_value(arguments.as_inner())), v(r#"{ "a": 1, "c": null }"#));
    assert!(arguments.take_raw("b").is_none());
    assert_eq!(from_json(&arguments.take_raw("a").expect("a is present")), v("1"));
}

#[test]
fn object_schema_entries_can_be_edited_in_place() {
    let mut object = schema(r#"{ "type": "object" }"#);
    object
        .as_object_mut()
        .expect("object schema")
        .insert("title".to_string(), JsonValue::String("Edited".to_string()));
    assert_eq!(sv(&object), v(r#"{ "type": "object", "title": "Edited" }"#));

    let mut boolean = schema("true");
    assert!(boolean.as_object_mut().is_none());
    assert_eq!(sv(&boolean), v("true"));
}

fn serialized<R: serde::Serialize>(response: R) -> Result<JsonValue, String> {
    serde_json::to_value(response).map(|value| to_json(&value)).map_err(|error| error.to_string())
}

#[test]
fn response_serialization_covers_success_and_failure() {
    struct FailsToSerialize;

    impl serde::Serialize for FailsToSerialize {
        fn serialize<S>(&self, _serializer: S) -> Result<S::Ok, S::Error>
        where
            S: serde::Serializer,
        {
            Err(serde::ser::Error::custom("expected failure"))
        }
    }

    let success = serialize_handler_response(Ok(serialized(v(r#"{ "ok": true }"#))));
    assert!(!success.is_error);
    assert_eq!(
        from_json(success.structured_content.as_ref().expect("structured"))["ok"],
        true
    );

    let failure = serialize_response_value(serialized(FailsToSerialize));
    assert!(failure.is_error);
    assert_eq!(
        from_json(failure.structured_content.as_ref().expect("structured error"))["error"]["kind"],
        "handler"
    );
}

#[test]
fn response_serialization_reports_serializer_failures() {
    struct FailingSerialize;

    impl serde::Serialize for FailingSerialize {
        fn serialize<S>(&self, _serializer: S) -> Result<S::Ok, S::Error>
        where
            S: serde::Serializer,
        {
            Err(serde::ser::Error::custom("intentional serialization failure"))
        }
    }

    let result = serialize_response_value(serialized(FailingSerialize));
    assert!(result.is_error);
    assert!(from_json(result.structured_content.as_ref().expect("structured"))["error"]["message"]
        .as_str()
        .expect("message should be text")
        .contains("intentional serialization failure"));
}

#[test]
fn input_descriptors_and_schema_hints_cover_remaining_shape_boundaries() {
    assert_eq!(sv(&schema_for_input(McpInput::object()))["type"], "object");
    assert_eq!(
        from_json(&mcp_input_descriptor_value(McpInput::number())),
        v(r#"{ "supported": true, "shape": "scalar", "primitive": "number" }"#)
    );
    assert_eq!(
        from_json(&mcp_input_descriptor_value(McpInput::boolean_list())),
        v(r#"{ "supported": true, "shape": "list", "items": "boolean" }"#)
    );
    assert_eq!(
        from_json(&mcp_input_descriptor_value(McpInput::object())),
        v(r#"{ "supported": true, "shape": "object" }"#)
    );

    let inclusive_params: &'static [McpValidationParam] = Box::leak(Box::new([
        McpValidationParam::literal("min", "1"),
        McpValidationParam::literal("max", "2.5"),
        McpValidationParam::literal("exclusive_min", "not-a-bool"),
        McpValidationParam::literal("exclusive_max", "true"),
    ]));
    let range = McpValidationRule::new(
        McpValidationScope::Field,
        "RangeValidation",
        "RangeValidation",
        None,
        McpValidationTypeArgMode::Omitted,
        inclusive_params,
    );
    let unknown = McpValidationRule::new(
        McpValidationScope::Field,
        "CustomValidation",
        "CustomValidation",
        None,
        McpValidationTypeArgMode::Omitted,
        &[],
    );
    let mut schema_object = object_of(r#"{ "type": "integer" }"#);
    apply_validation_schema_metadata(&mut schema_object, "x-rules", &[range, unknown]);
    let schema_value = Value::Object(map_to_value(&schema_object));
    assert_eq!(schema_value["minimum"], 1);
    assert_eq!(schema_value["exclusiveMaximum"], 2.5);
    assert_eq!(schema_value["x-rules"].as_array().map(Vec::len), Some(2));

    let mut unconstrained = JsonMap::new();
    apply_validation_schema_metadata(&mut unconstrained, "x-rules", &[]);
    assert!(unconstrained.is_empty());

    assert!(schema_allows_null(&McpSchema::new(j("true"))));
    assert!(!schema_allows_null(&McpSchema::new(j("false"))));
    assert!(!schema_allows_null(&McpSchema::new(j(r#""invalid""#))));
    assert!(!schema_allows_null(&McpSchema::new(j(r#"{ "type": true }"#))));
}

#[test]
fn runtime_icon_metadata_and_untyped_validation_rules_are_exercised() {
    let len_params: &'static [McpValidationParam] =
        Box::leak(Box::new([McpValidationParam::literal("min", "1")]));
    let icon = std::hint::black_box(
        McpToolIcon::new("data:image/svg+xml,x")
            .with_mime_type("image/svg+xml")
            .with_sizes(&["48x48", "any"])
            .with_theme(McpIconTheme::Dark),
    );
    assert_eq!(icon.src(), "data:image/svg+xml,x");
    assert_eq!(icon.mime_type(), Some("image/svg+xml"));
    assert_eq!(icon.sizes(), &["48x48", "any"]);
    assert!(matches!(icon.theme(), Some(McpIconTheme::Dark)));

    let len = McpValidationRule::new(
        McpValidationScope::Field,
        "LenValidation",
        "LenValidation",
        None,
        McpValidationTypeArgMode::Omitted,
        len_params,
    );
    let mut schema_object = JsonMap::new();
    apply_validation_schema_hints(&mut schema_object, &[len]);
    assert!(schema_object.is_empty());
}

#[test]
fn schema_numbers_convert_from_every_integer_width() {
    assert_eq!(from_json(&McpSchemaNumber::from(-2_isize).into_value()), v("-2"));
    assert_eq!(from_json(&McpSchemaNumber::from(2_usize).into_value()), v("2"));
    assert_eq!(from_json(&McpSchemaNumber::from(i8::MIN).into_value()), v("-128"));
    assert_eq!(from_json(&McpSchemaNumber::from(u64::MAX).into_value()), v("18446744073709551615"));
    assert_eq!(from_json(&McpSchemaNumber::from(0_i32).into_value()), v("0"));
}

fn float_literal_text(literal: &str) -> Option<String> {
    match literal_to_number_value(literal) {
        Some(JsonValue::Number(JsonNumber::Float(text))) => Some(text),
        _ => None,
    }
}

#[test]
fn float_literals_are_carried_in_json_number_syntax() {
    assert_eq!(float_literal_text("-2.5").as_deref(), Some("-2.5"));
    assert_eq!(float_literal_text(".5").as_deref(), Some("0.5"));
    assert_eq!(float_literal_text("1.").as_deref(), Some("1.0"));
    assert_eq!(float_literal_text("+1.5").as_deref(), Some("1.5"));
    assert_eq!(float_literal_text("007.25e+3").as_deref(), Some("7.25e+3"));
    assert_eq!(float_literal_text("-.5E2").as_deref(), Some("-0.5E2"));
    for literal in [".5", "1.", "+1.5", "007.25e+3", "-.5E2"] {
        let text = float_literal_text(literal).unwrap();
        let ours: f64 = serde_json::from_str(&text).unwrap();
        let original: f64 = literal.parse().unwrap();
        assert_eq!(ours, original);
    }
    assert!(literal_to_number_value("1.2.3").is_none());
    assert!(literal_to_number_value("e5").is_none());
    assert!(literal_to_number_value("inf").is_none());
}


#[test]
fn error_kinds_name_the_variant_only() {
    let errors = [
        McpToolError::ArgumentsMustBeObject,
        McpToolError::missing_field("a"),
        McpToolError::decode("a", "bad"),
        McpToolError::invalid_field_value("state", "missing"),
        McpToolError::validation("bad"),
        McpToolError::conversion("bad"),
        McpToolError::invalid_tool_output("t", "bad"),
        McpToolError::handler("bad"),
        McpToolError::invalid_schema("input_schema", "bad"),
        McpToolError::duplicate_tool("t"),
        McpToolError::duplicate_resource("r"),
        McpToolError::unknown_resource("r"),
        McpToolError::duplicate_prompt("p"),
        McpToolError::unknown_prompt("p"),
    ];
    for (i, a) in errors.iter().enumerate() {
        for (j, b) in errors.iter().enumerate() {
            assert_eq!(i == j, a.kind() == b.kind());
        }
    }
    assert_eq!(McpToolError::missing_field("a").kind(), McpToolError::missing_field("b").kind());
    assert_eq!(McpToolError::ArgumentsMustBeObject.kind(), "arguments_must_be_object");
    assert_eq!(McpToolError::invalid_field_value("state", "missing").kind(), "invalid_field_value");
}

#[test]
fn generated_tool_names_are_snake_case_words() {
    let name = tool_name("my_crate::--Api::", "__HTTPServer  v2__", "tool_");
    assert_eq!(name, "my_crate_api_http_server_v2");
    assert!(name.chars().all(|c| c.is_ascii_lowercase() || c.is_ascii_digit() || c == '_'));
    assert!(!name.starts_with('_') && !name.ends_with('_') && !name.contains("__"));
    assert_eq!(tool_name("::", "--", "tool_"), "tool_");
    assert_eq!(tool_name("9lives", "X", "tool_"), "tool_9lives_x");
}

#[test]
fn raw_arguments_are_taken_by_name_or_alias() {
    let mut object = JsonMap::new();
    object.insert("old_name".to_string(), JsonValue::Bool(true));
    object.insert("other".to_string(), JsonValue::Null);
    let mut arguments = McpArguments::new(object);
    let taken = arguments.take_raw_one_of("name", &["old_name", "legacy"]).unwrap();
    assert!(matches!(taken, Some(JsonValue::Bool(true))));
    let rest = arguments.into_inner();
    assert_eq!(rest.len(), 1);
    assert_eq!(rest.key_at(0), "other");

    let mut both = JsonMap::new();
    both.insert("name".to_string(), JsonValue::Bool(true));
    both.insert("legacy".to_string(), JsonValue::Bool(false));
    let error = McpArguments::new(both).take_raw_one_of("name", &["old_name", "legacy"]).unwrap_err();
    assert_eq!(error.kind(), "duplicate_field");

    let mut none = McpArguments::new(JsonMap::new());
    assert!(none.take_raw_one_of("name", &["legacy"]).unwrap().is_none());
}

#[test]
fn response_lines_skip_notifications_until_the_answer() {
    use_step(r#"{"jsonrpc":"2.0","method":"notifications/progress"}"#, |s| {
        matches!(s, ResponseStep::Skip)
    });
    use_step(r#"{"jsonrpc":"2.0","id":7,"result":{"ok":true}}"#, |s| {
        matches!(s, ResponseStep::Result(JsonValue::Object(_)))
    });
    use_step(r#"{"jsonrpc":"2.0","id":7,"error":{"code":-1}}"#, |s| {
        matches!(s, ResponseStep::RpcError(_))
    });
    use_step(r#"{"jsonrpc":"2.0","id":8,"result":{}}"#, |s| matches!(s, ResponseStep::Unexpected(_)));
    use_step(r#"{"jsonrpc":"2.0","id":7}"#, |s| matches!(s, ResponseStep::MissingResult(_)));
    assert!(response_line_step("not json", 7).is_err());
}

fn use_step(line: &str, check: fn(&ResponseStep) -> bool) {
    let step = response_line_step(line, 7).expect("line should parse");
    assert!(check(&step));
}

#[test]
fn float_literals_past_the_f64_range_are_not_numbers() {
    let limit = "179769313486231580793728971405303415079934132710037826936173778980444968292764750946649017977587207096330286416692887910946555547851940402630657488671505820681908902000708383676273854845817711531764475730270069855571366959622842914819860834936475292719074168444365510704342711559699508093042880177904174497792";
    let below = "179769313486231580793728971405303415079934132710037826936173778980444968292764750946649017977587207096330286416692887910946555547851940402630657488671505820681908902000708383676273854845817711531764475730270069855571366959622842914819860834936475292719074168444365510704342711559699508093042880177904174497791";
    let cases = [
        "1e400".to_string(),
        "-1e400".to_string(),
        "1.7976931348623157e308".to_string(),
        "1.7976931348623158e308".to_string(),
        "1.7976931348623159e308".to_string(),
        ".1e310".to_string(),
        "0.000e999999999999999999999999".to_string(),
        "1e-400".to_string(),
        "1e-99999999999999999999999".to_string(),
        "1e99999999999999999999999".to_string(),
        format!("{limit}.0"),
        format!("{below}.99"),
        format!("0.{limit}e309"),
        format!("{}.{}e1", &limit[..308], &limit[308..]),
        format!("00{below}.5"),
    ];
    for text in cases.iter() {
        let finite = text.parse::<f64>().map(|f| f.is_finite()).unwrap_or(false);
        assert_eq!(literal_to_number_value(text).is_some(), finite, "{text}");
    }
    assert!(literal_to_number_value("1e400").is_none());
    assert!(literal_to_number_value(&format!("{below}.5")).is_some());
}
