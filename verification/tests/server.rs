use component_shape::{
    call_typed_handler, ensure_json_resource_specs_available, json_resource_definitions,
    object_schema, prompt_definition, register_json_resource_specs,
    register_json_resource_specs_if_missing, resource_definition, resource_template_definition,
    schema_object, text_prompt_result, text_resource_result, tool_definition,
    tool_definition_for_input, tool_definition_for_input_with_annotations, tool_error_result_for,
    tool_structured_result, validate_tool_definition, ContentBlock, JsonMap, JsonNumber,
    JsonResourceReader, JsonValue, McpArguments, McpIcon, McpJsonResourceSpec, McpJsonSchema,
    McpPromptArgument, McpPromptResult, McpResourceResult, McpSchema, McpServer,
    McpServerBuilder, McpToolAnnotations, McpToolCall, McpToolError, McpToolInput,
    ToolCallResult, ToolDefinition,
};
use serde_json::Value;
use std::future::Future;
use std::pin::Pin;

fn to_json(value: &Value) -> JsonValue {
    match value {
        Value::Null => JsonValue::Null,
        Value::Bool(b) => JsonValue::Bool(*b),
        Value::Number(n) => {
            if let Some(u) = n.as_u64() {
                JsonValue::Number(JsonNumber::PosInt(u))
            } else if let Some(i) = n.as_i64() {
                JsonValue::Number(JsonNumber::NegInt(i))
            } else {
                JsonValue::Number(JsonNumber::Float(n.to_string()))
            }
        },
        Value::String(s) => JsonValue::String(s.clone()),
        Value::Array(items) => JsonValue::Array(items.iter().map(to_json).collect()),
        Value::Object(map) => {
            let mut object = JsonMap::new();
            for (key, item) in map {
                object.insert(key.clone(), to_json(item));
            }
            JsonValue::Object(object)
        },
    }
}

fn from_json(value: &JsonValue) -> Value {
    match value {
        JsonValue::Null => Value::Null,
        JsonValue::Bool(b) => Value::Bool(*b),
        JsonValue::Number(JsonNumber::PosInt(u)) => Value::from(*u),
        JsonValue::Number(JsonNumber::NegInt(i)) => Value::from(*i),
        JsonValue::Number(JsonNumber::Float(text)) => {
            let parsed: f64 = text.parse().expect("float text should parse");
            Value::Number(serde_json::Number::from_f64(parsed).expect("float should be finite"))
        },
        JsonValue::String(s) => Value::String(s.clone()),
        JsonValue::Array(items) => Value::Array(items.iter().map(from_json).collect()),
        JsonValue::Object(map) => {
            let mut out = serde_json::Map::new();
            for i in 0..map.len() {
                out.insert(map.key_at(i).clone(), from_json(map.value_at(i)));
            }
            Value::Object(out)
        },
    }
}

fn v(text: &str) -> Value {
    serde_json::from_str(text).expect("test JSON should parse")
}

fn j(text: &str) -> JsonValue {
    to_json(&v(text))
}

fn schema(text: &str) -> McpSchema {
    McpSchema::new(j(text))
}

type ToolFuture = Pin<Box<dyn Future<Output = ToolCallResult>>>;

enum Handler {
    Sync(Box<dyn Fn(McpToolCall) -> ToolCallResult>),
    Async(Box<dyn Fn(McpToolCall) -> ToolFuture>),
}

fn sync_tool(f: impl Fn(McpToolCall) -> ToolCallResult + 'static) -> Handler {
    Handler::Sync(Box::new(f))
}

fn async_tool<Fut: Future<Output = ToolCallResult> + 'static>(
    f: impl Fn(McpToolCall) -> Fut + 'static,
) -> Handler {
    Handler::Async(Box::new(move |call| Box::pin(f(call)) as ToolFuture))
}

fn typed_tool<Input: McpToolInput + 'static>(
    f: impl Fn(Input) -> ToolCallResult + 'static,
) -> Handler {
    Handler::Sync(Box::new(move |call| call_typed_handler(&f, call)))
}

enum Reader {
    Sync(Box<dyn Fn() -> McpResourceResult>),
    Async(Box<dyn Fn() -> Pin<Box<dyn Future<Output = McpResourceResult>>>>),
    Json(String, JsonValue),
}

impl JsonResourceReader for Reader {
    fn json_reader(uri: String, value: JsonValue) -> Self {
        Reader::Json(uri, value)
    }
}

enum Prompter {
    Sync(Box<dyn Fn(Option<JsonMap>) -> McpPromptResult>),
    Async(Box<dyn Fn(Option<JsonMap>) -> Pin<Box<dyn Future<Output = McpPromptResult>>>>),
}

type Server = McpServer<Handler, Reader, Prompter>;

fn run(handler: &Handler, call: McpToolCall) -> ToolCallResult {
    match handler {
        Handler::Sync(f) => f(call),
        Handler::Async(f) => tokio::runtime::Builder::new_current_thread()
            .enable_all()
            .build()
            .expect("runtime should start")
            .block_on(f(call)),
    }
}

fn call_tool(server: &Server, name: &str, arguments: Option<Value>) -> ToolCallResult {
    server.call_tool(name, arguments.as_ref().map(to_json), |h: &Handler, c| run(h, c))
}

fn structured(result: &ToolCallResult) -> Value {
    from_json(result.structured_content.as_ref().expect("structured content"))
}

fn echo_arguments(call: McpToolCall) -> ToolCallResult {
    tool_structured_result(JsonValue::Object(call.into_arguments().into_inner()))
}

fn echo_definition(name: &str) -> ToolDefinition {
    tool_definition(name, None, None, schema(r#"{ "type": "object" }"#), None)
        .expect("tool definition should build")
}

struct EchoInput {
    value: String,
}

impl McpToolInput for EchoInput {
    fn input_schema() -> McpSchema {
        object_schema(
            vec![("value".to_string(), String::json_schema())],
            vec!["value".to_string()],
        )
    }

    fn from_tool_call(call: McpToolCall) -> Result<Self, McpToolError> {
        let mut arguments: McpArguments = call.into_arguments();
        let value = arguments.take_required_tool_value::<String>("value")?;
        arguments.finish()?;
        Ok(EchoInput { value })
    }
}

fn echo_value(input: EchoInput) -> ToolCallResult {
    let mut object = JsonMap::new();
    object.insert("value".to_string(), JsonValue::String(input.value));
    tool_structured_result(JsonValue::Object(object))
}

#[test]
fn server_handles_direct_tools_call() {
    let mut server = Server::new("test-server", "0.0.0");
    server
        .add_tool(echo_definition("echo"), sync_tool(echo_arguments))
        .expect("tool should register");

    assert!(server.contains_tool("echo"));
    assert_eq!(server.tool_count(), 1);

    let result = call_tool(&server, "echo", Some(v(r#"{ "value": 42 }"#)));

    assert!(!result.is_error);
    assert_eq!(structured(&result)["value"], 42);
}

#[test]
fn server_handles_async_tools_call() {
    let mut server = Server::new("test-server", "0.0.0");
    server
        .add_tool(
            echo_definition("echo"),
            async_tool(|call| async move { echo_arguments(call) }),
        )
        .expect("tool should register");

    let result = call_tool(&server, "echo", Some(v(r#"{ "value": 42 }"#)));

    assert!(!result.is_error);
    assert_eq!(structured(&result)["value"], 42);
}

#[test]
fn server_handles_typed_tools_call() {
    let mut server = Server::new("test-server", "0.0.0");
    server
        .add_typed_tool(
            tool_definition_for_input::<EchoInput>("echo", None, None, None)
                .expect("tool definition should build"),
            typed_tool(echo_value),
        )
        .expect("tool should register");

    let result = call_tool(&server, "echo", Some(v(r#"{ "value": "typed" }"#)));
    assert!(!result.is_error);
    assert_eq!(structured(&result)["value"], "typed");

    let result = call_tool(&server, "echo", Some(v(r#"{ "value": "typed", "extra": true }"#)));
    assert!(result.is_error);
    assert_eq!(
        structured(&result)["error"],
        v(r#"{
            "kind": "unknown_field",
            "message": "unknown field `extra`",
            "field": "extra"
        }"#)
    );
}

#[test]
fn server_validates_success_output_against_declared_schema() {
    fn echo_output_schema() -> McpSchema {
        schema(
            r#"{
                "type": "object",
                "properties": {
                    "value": { "type": "integer" }
                },
                "required": ["value"],
                "additionalProperties": false
            }"#,
        )
    }

    let mut server = Server::new("test-server", "0.0.0");
    server
        .add_tool(
            tool_definition(
                "missing_structured_content",
                None,
                None,
                schema(r#"{ "type": "object" }"#),
                Some(echo_output_schema()),
            )
            .expect("tool definition should build"),
            sync_tool(|_| ToolCallResult::success(vec![ContentBlock::text("ok".to_string())])),
        )
        .expect("tool should register");
    server
        .add_tool(
            tool_definition(
                "scalar_structured_content",
                None,
                None,
                schema(r#"{ "type": "object" }"#),
                Some(schema(r#"{ "type": "string" }"#)),
            )
            .expect("tool definition should build"),
            sync_tool(|_| tool_structured_result(JsonValue::String("scalar output".to_string()))),
        )
        .expect("tool should register");
    server
        .add_tool(
            tool_definition(
                "schema_mismatch",
                None,
                None,
                schema(r#"{ "type": "object" }"#),
                Some(echo_output_schema()),
            )
            .expect("tool definition should build"),
            sync_tool(|_| tool_structured_result(JsonValue::Object(JsonMap::new()))),
        )
        .expect("tool should register");
    server
        .add_tool(
            tool_definition(
                "handler_error",
                None,
                None,
                schema(r#"{ "type": "object" }"#),
                Some(echo_output_schema()),
            )
            .expect("tool definition should build"),
            sync_tool(|_| tool_error_result_for(McpToolError::handler("boom"))),
        )
        .expect("tool should register");

    let result = call_tool(&server, "missing_structured_content", Some(v("{}")));
    assert!(result.is_error);
    assert_eq!(
        structured(&result)["error"],
        v(r#"{
            "kind": "invalid_tool_output",
            "message": "tool `missing_structured_content` returned invalid structured content: tool declares output_schema but returned no structured_content",
            "name": "missing_structured_content",
            "detail": "tool declares output_schema but returned no structured_content"
        }"#)
    );

    let result = call_tool(&server, "scalar_structured_content", Some(v("{}")));
    assert!(!result.is_error);
    assert_eq!(structured(&result), v(r#""scalar output""#));

    let result = call_tool(&server, "schema_mismatch", Some(v("{}")));
    assert!(result.is_error);
    assert_eq!(
        structured(&result)["error"],
        v(r#"{
            "kind": "invalid_tool_output",
            "message": "tool `schema_mismatch` returned invalid structured content: missing required field `structured_content.value`",
            "name": "schema_mismatch",
            "detail": "missing required field `structured_content.value`"
        }"#)
    );

    let result = call_tool(&server, "handler_error", Some(v("{}")));
    assert!(result.is_error);
    assert_eq!(structured(&result)["error"]["kind"], v(r#""handler""#));
}

#[test]
fn server_composes_registrars() {
    fn register_echo(server: &mut Server) -> Result<(), McpToolError> {
        server.add_tool(echo_definition("echo"), sync_tool(echo_arguments))
    }

    let server = Server::builder("test-server", "0.0.0")
        .register(register_echo)
        .build()
        .expect("registrar should compose");

    assert!(server.contains_tool("echo"));
}

#[test]
fn server_rejects_duplicate_tool_names() {
    let mut server = Server::new("test-server", "0.0.0");
    server
        .add_tool(echo_definition("echo"), sync_tool(echo_arguments))
        .expect("tool should register");

    let error = match server.add_tool(echo_definition("echo"), sync_tool(echo_arguments)) {
        Ok(_) => panic!("duplicate tool should be rejected"),
        Err(error) => error,
    };

    assert!(matches!(error, McpToolError::DuplicateTool { ref name } if name == "echo"));
    assert_eq!(server.tool_count(), 1);
}

#[test]
fn server_validates_raw_tool_definitions() {
    let mut server = Server::new("test-server", "0.0.0");
    let invalid_name = ToolDefinition {
        name: String::new(),
        title: None,
        description: None,
        input_schema: JsonMap::new(),
        output_schema: None,
        annotations: None,
        icons: None,
        execution: None,
    };

    let error = server
        .add_tool(invalid_name, sync_tool(|_| tool_structured_result(JsonValue::Null)))
        .expect_err("invalid raw tool name should fail");

    assert_eq!(error.kind(), "validation");
    assert_eq!(server.tool_count(), 0);

    let mut invalid_input_schema = echo_definition("valid");
    invalid_input_schema.input_schema =
        schema_object("input_schema", schema(r#"{ "type": "string" }"#))
            .expect("raw schema object should build");

    let error = server
        .add_tool(invalid_input_schema, sync_tool(|_| tool_structured_result(JsonValue::Null)))
        .expect_err("raw tool input schema should describe object arguments");

    assert_eq!(error.kind(), "invalid_schema");
    assert_eq!(server.tool_count(), 0);

    let scalar_output = tool_definition(
        "scalar_output",
        None,
        None,
        schema(r#"{ "type": "object" }"#),
        Some(schema(r#"{ "type": "string" }"#)),
    )
    .expect("tool definition should build");

    server
        .add_tool(
            scalar_output,
            sync_tool(|_| tool_structured_result(JsonValue::String("scalar output".to_string()))),
        )
        .expect("scalar output schema should register");

    assert_eq!(server.tool_count(), 1);

    let mut conflicting_annotations = echo_definition("valid");
    conflicting_annotations.annotations =
        Some(McpToolAnnotations::new().read_only(true).destructive(true));

    let error = server
        .add_tool(conflicting_annotations, sync_tool(|_| tool_structured_result(JsonValue::Null)))
        .expect_err("conflicting raw annotations should fail");

    assert_eq!(error.kind(), "validation");
    assert_eq!(server.tool_count(), 1);
}

#[test]
fn server_builder_registers_sync_async_raw_and_typed_tools() {
    fn raw_tool(name: &str) -> ToolDefinition {
        tool_definition(name, None, None, McpSchema::object(), None).expect("tool should build")
    }

    let typed_sync = tool_definition_for_input_with_annotations::<EchoInput>(
        "typed_sync",
        None,
        None,
        None,
        Some(McpToolAnnotations::new().read_only(true)),
    )
    .expect("typed tool should build");
    let typed_async = tool_definition_for_input::<EchoInput>("typed_async", None, None, None)
        .expect("typed tool should build");

    let server = Server::builder("builder", "0.0.0")
        .tool(raw_tool("raw_sync"), sync_tool(echo_arguments))
        .typed_tool(typed_sync, typed_tool(echo_value))
        .tool(raw_tool("raw_async"), async_tool(|call| async move { echo_arguments(call) }))
        .typed_tool(
            typed_async,
            async_tool(|call| async move { call_typed_handler(&echo_value, call) }),
        )
        .build()
        .expect("builder should register tools");

    for name in ["raw_sync", "typed_sync", "raw_async", "typed_async"] {
        let mut arguments = serde_json::Map::new();
        arguments.insert("value".to_string(), Value::String(name.to_string()));
        let result = call_tool(&server, name, Some(Value::Object(arguments)));
        assert!(!result.is_error, "tool: {name}");
        assert_eq!(structured(&result)["value"], name);
    }

    let invalid = call_tool(&server, "typed_async", Some(v(r#"{ "extra": true }"#)));
    assert!(invalid.is_error);
    let unknown = call_tool(&server, "missing", Some(v("{}")));
    assert!(unknown.is_error);

    let duplicate = Server::builder("builder", "0.0.0")
        .tool(raw_tool("duplicate"), sync_tool(|_| tool_structured_result(JsonValue::Object(JsonMap::new()))))
        .tool(raw_tool("duplicate"), sync_tool(|_| tool_structured_result(JsonValue::Object(JsonMap::new()))))
        .build();
    assert!(matches!(duplicate, Err(McpToolError::DuplicateTool { .. })));
}

#[test]
fn server_builder_registers_resources_templates_and_prompts() {
    let resource = || {
        resource_definition("shape://sync", "sync_resource", None, None, Some("text/plain".to_string()))
            .expect("resource should build")
    };
    let async_resource = resource_definition(
        "shape://async",
        "async_resource",
        None,
        None,
        Some("text/plain".to_string()),
    )
    .expect("resource should build");
    let template = resource_template_definition(
        "shape://{name}",
        "shape_template",
        None,
        None,
        Some("text/plain".to_string()),
    )
    .expect("template should build");
    let prompt = prompt_definition("sync_prompt", None, None, None).expect("prompt should build");
    let async_prompt =
        prompt_definition("async_prompt", None, None, None).expect("prompt should build");

    let server: Server = McpServerBuilder::new("builder", "0.0.0")
        .resource(
            resource(),
            Reader::Sync(Box::new(|| {
                text_resource_result("shape://sync", "sync".to_string(), "text/plain")
            })),
        )
        .resource(
            async_resource,
            Reader::Async(Box::new(|| {
                Box::pin(async {
                    text_resource_result("shape://async", "async".to_string(), "text/plain")
                })
            })),
        )
        .resource_template(template)
        .prompt(prompt, Prompter::Sync(Box::new(|_| text_prompt_result(None, "sync".to_string()))))
        .prompt(
            async_prompt,
            Prompter::Async(Box::new(|_| {
                Box::pin(async { text_prompt_result(None, "async".to_string()) })
            })),
        )
        .build()
        .expect("builder should register resources and prompts");

    assert_eq!(server.resource_count(), 2);
    assert_eq!(server.list_resource_templates().len(), 1);
    assert_eq!(server.prompt_count(), 2);
    assert!(server.contains_prompt("sync_prompt"));

    let mut duplicates = Server::new("duplicates", "0.0.0");
    duplicates
        .add_resource(
            resource(),
            Reader::Sync(Box::new(|| {
                text_resource_result("shape://sync", "sync".to_string(), "text/plain")
            })),
        )
        .expect("first resource should register");
    assert!(matches!(
        duplicates.add_resource(
            resource(),
            Reader::Sync(Box::new(|| {
                text_resource_result("shape://sync", "sync".to_string(), "text/plain")
            })),
        ),
        Err(McpToolError::DuplicateResource { .. })
    ));

    let prompt = || prompt_definition("duplicate_prompt", None, None, None).expect("prompt should build");
    duplicates
        .add_prompt(
            prompt(),
            Prompter::Sync(Box::new(|_| text_prompt_result(None, "prompt".to_string()))),
        )
        .expect("first prompt should register");
    assert!(matches!(
        duplicates.add_prompt(
            prompt(),
            Prompter::Sync(Box::new(|_| text_prompt_result(None, "prompt".to_string()))),
        ),
        Err(McpToolError::DuplicatePrompt { .. })
    ));
}

#[test]
fn json_resource_specs_register_and_reuse_generated_resources() {
    let specs = || {
        vec![
            McpJsonResourceSpec::new(
                "gpui-form://forms/contact/descriptor",
                "contact_descriptor",
                Some("Contact descriptor".to_string()),
                Some("Descriptor for the contact form.".to_string()),
                j(r#"{ "fields": ["name", "email"] }"#),
            )
            .expect("resource spec should build"),
        ]
    };
    let definitions = json_resource_definitions(&specs()).expect("definitions should build");
    assert_eq!(definitions[0].uri, "gpui-form://forms/contact/descriptor");
    assert_eq!(definitions[0].mime_type.as_deref(), Some("application/json"));

    let mut server = Server::new("test", "0.0.0");
    register_json_resource_specs_if_missing(&mut server, specs())
        .expect("resources should register");
    register_json_resource_specs_if_missing(&mut server, specs())
        .expect("existing complete resource set should be reused");

    assert_eq!(server.resource_count(), 1);
    assert!(server.contains_resource("gpui-form://forms/contact/descriptor"));
}

#[test]
fn server_lists_registrations_in_name_order() {
    let mut server = Server::new("test-server", "0.0.0");
    for name in ["zeta", "alpha", "mid"] {
        server
            .add_tool(echo_definition(name), sync_tool(echo_arguments))
            .expect("tool should register");
    }
    let names: Vec<String> = server.list_tools().into_iter().map(|tool| tool.name).collect();
    assert_eq!(names, vec!["alpha", "mid", "zeta"]);
}

#[test]
fn registered_tool_is_found_and_others_unchanged() {
    let mut server = Server::new("test-server", "0.0.0");
    server
        .add_tool(echo_definition("first"), sync_tool(echo_arguments))
        .expect("tool should register");
    assert!(server.tool("second").is_none());
    server
        .add_tool(
            echo_definition("second"),
            sync_tool(|_| tool_structured_result(JsonValue::Bool(true))),
        )
        .expect("tool should register");
    let (definition, _) = server.tool("second").expect("second should be found");
    assert_eq!(definition.name, "second");
    let (definition, _) = server.tool("first").expect("first should still be found");
    assert_eq!(definition.name, "first");
    assert_eq!(structured(&call_tool(&server, "second", None)), Value::Bool(true));
}

#[test]
fn call_tool_reports_unknown_tools_and_non_object_arguments() {
    let mut server = Server::new("test-server", "0.0.0");
    server
        .add_tool(echo_definition("echo"), sync_tool(echo_arguments))
        .expect("tool should register");

    let unknown = call_tool(&server, "missing", None);
    assert!(unknown.is_error);
    assert_eq!(
        structured(&unknown)["error"],
        v(r#"{ "kind": "unknown_tool", "message": "unknown tool `missing`", "name": "missing" }"#)
    );

    let invalid = call_tool(&server, "echo", Some(v("1")));
    assert!(invalid.is_error);
    assert_eq!(structured(&invalid)["error"]["kind"], "arguments_must_be_object");

    let empty = call_tool(&server, "echo", None);
    assert!(!empty.is_error);
    assert_eq!(structured(&empty), v("{}"));
}

#[test]
fn object_output_schema_rejects_non_object_structured_content() {
    let mut server = Server::new("test-server", "0.0.0");
    server
        .add_tool(
            tool_definition(
                "scalar_for_object",
                None,
                None,
                schema(r#"{ "type": "object" }"#),
                Some(schema(r#"{ "type": "object" }"#)),
            )
            .expect("tool definition should build"),
            sync_tool(|_| tool_structured_result(JsonValue::String("scalar".to_string()))),
        )
        .expect("tool should register");

    let result = call_tool(&server, "scalar_for_object", None);
    assert!(result.is_error);
    assert_eq!(
        structured(&result)["error"]["detail"],
        "tool declares output_schema with object root but returned non-object structured_content"
    );
}

#[test]
fn definition_validation_covers_icons_prompt_arguments_and_resource_specs() {
    fn icon(src: &str, mime_type: Option<&str>, sizes: Option<Vec<&str>>) -> McpIcon {
        McpIcon {
            src: src.to_string(),
            mime_type: mime_type.map(str::to_string),
            sizes: sizes.map(|sizes| sizes.into_iter().map(str::to_string).collect()),
            theme: None,
        }
    }

    fn argument(name: &str, title: Option<&str>, description: Option<&str>) -> McpPromptArgument {
        McpPromptArgument {
            name: name.to_string(),
            title: title.map(str::to_string),
            description: description.map(str::to_string),
            required: None,
        }
    }

    let mut tool = tool_definition(
        "validated",
        None,
        Some("Description".to_string()),
        McpSchema::new(j(r#"{ "type": ["null", "object"] }"#)),
        None,
    )
    .expect("object type union should be accepted");
    let mut annotations = McpToolAnnotations::new().read_only(true);
    annotations.title = Some("Annotation".to_string());
    tool.annotations = Some(annotations);
    tool.icons = Some(vec![icon("data:image/svg+xml,x", Some("image/svg+xml"), Some(vec!["any"]))]);
    validate_tool_definition(&tool).expect("complete definition should validate");

    let mut invalid = tool.copy();
    invalid.description = Some(" ".to_string());
    assert!(validate_tool_definition(&invalid).is_err());
    let mut invalid = tool.copy();
    let mut blank_title = McpToolAnnotations::new();
    blank_title.title = Some(" ".to_string());
    invalid.annotations = Some(blank_title);
    assert!(validate_tool_definition(&invalid).is_err());
    for bad_icon in [
        icon(" ", None, None),
        icon("icon", Some(" "), None),
        icon("icon", None, Some(vec![" "])),
    ] {
        let mut invalid = tool.copy();
        invalid.icons = Some(vec![bad_icon]);
        assert!(validate_tool_definition(&invalid).is_err());
    }

    prompt_definition(
        "draft",
        Some("Draft".to_string()),
        Some("Draft content".to_string()),
        Some(vec![argument("topic", Some("Topic"), Some("Prompt topic"))]),
    )
    .expect("prompt arguments should validate");
    for bad_argument in [
        argument("bad name", None, None),
        argument("topic", Some(" "), None),
        argument("topic", None, Some(" ")),
    ] {
        assert!(prompt_definition("draft", None, None, Some(vec![bad_argument])).is_err());
    }

    let spec = || {
        McpJsonResourceSpec::new("shape://definition", "definition", None, None, j(r#"{ "ok": true }"#))
            .expect("spec should build")
    };
    assert_eq!(spec().definition().uri, "shape://definition");
    assert_eq!(spec().into_definition().uri, "shape://definition");

    let mut server = Server::new("resources", "0.0.0");
    register_json_resource_specs(&mut server, vec![spec()]).expect("resource should register");
    assert!(ensure_json_resource_specs_available(&server, &[spec()]).is_err());

    resource_definition(
        "shape://resource",
        "resource",
        Some("Resource".to_string()),
        Some("Resource description".to_string()),
        Some("application/json".to_string()),
    )
    .expect("complete resource definition should validate");
    resource_template_definition(
        "shape://resource/{id}",
        "resource_template",
        Some("Resource template".to_string()),
        Some("Resource template description".to_string()),
        Some("application/json".to_string()),
    )
    .expect("complete resource template should validate");

    assert!(tool_definition("missing_type", None, None, schema("{}"), None).is_err());
    assert!(tool_definition(
        "invalid_type_union",
        None,
        None,
        schema(r#"{ "type": [1, "null"] }"#),
        None,
    )
    .is_err());
}

#[test]
fn server_accepts_owned_metadata() {
    let name = "owned-server".to_string();
    let version = "1.2.3".to_string();
    let server = Server::new(&name, &version);

    assert_eq!(server.server_name(), "owned-server");
    assert_eq!(server.server_version(), "1.2.3");
}
