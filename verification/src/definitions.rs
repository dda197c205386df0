//! Building and validating MCP tool, resource and prompt definitions.

use crate::closed_schema::result_model;
use crate::json_text::{json_pretty_text, pretty_json_text};
use crate::json::{copy_str, map_get, str_eq, Json, JsonMap, JsonValue};
use crate::mcp_input::{
    metadata_error_message, tool_name_check, validate_mcp_tool_metadata_text,
    validate_mcp_tool_name, MetadataErrorModel,
};
use crate::protocol::{
    copy_opt, opt_text, texts, McpIcon, McpPromptArgument, McpPromptMessage,
    McpPromptMessageRole, McpPromptResult, McpResourceContents, McpResourceResult,
    McpToolAnnotations, PromptDefinition, ResourceDefinition, ResourceTemplateDefinition,
    ToolDefinition,
};
use crate::schema::McpSchema;
use crate::schema_lookup::{schema_type_includes, type_includes};
use crate::text::{blank, is_blank};
use crate::tool_error::{McpToolError, ToolErrorModel};
use vstd::prelude::*;
use vstd::string::*;

verus! {

// ---------------------------------------------------------------------------
// Rules
// ---------------------------------------------------------------------------
/// A validation error with the given message and no details.
pub open spec fn validation_error(message: Seq<char>) -> ToolErrorModel {
    ToolErrorModel::Validation { message, details: Seq::empty() }
}

/// `a`, then `b` when `a` passed.
pub open spec fn and_then(a: Result<(), ToolErrorModel>, b: Result<(), ToolErrorModel>) -> Result<
    (),
    ToolErrorModel,
> {
    match a {
        Ok(()) => b,
        Err(e) => Err(e),
    }
}

/// The tool-name rule, failing with a validation error carrying the
/// metadata error's message.
pub open spec fn name_rule(name: Seq<char>) -> Result<(), ToolErrorModel> {
    match tool_name_check(name) {
        Ok(()) => Ok(()),
        Err(e) => Err(validation_error(metadata_error_message(e))),
    }
}

/// Human-readable metadata text must not be blank.
pub open spec fn text_rule(label: Seq<char>, value: Seq<char>) -> Result<(), ToolErrorModel> {
    if is_blank(value) {
        Err(validation_error(metadata_error_message(MetadataErrorModel::EmptyText { label })))
    } else {
        Ok(())
    }
}

/// Required metadata text must not be blank; a blank value is a schema error
/// for the label.
pub open spec fn required_text_rule(label: Seq<char>, value: Seq<char>) -> Result<
    (),
    ToolErrorModel,
> {
    if is_blank(value) {
        Err(ToolErrorModel::InvalidSchema { label, message: "must not be empty"@ })
    } else {
        Ok(())
    }
}

/// `text_rule` on a present value.
pub open spec fn opt_text_rule(label: Seq<char>, value: Option<Seq<char>>) -> Result<
    (),
    ToolErrorModel,
> {
    match value {
        Some(v) => text_rule(label, v),
        None => Ok(()),
    }
}

/// `required_text_rule` on a present value.
pub open spec fn opt_required_rule(label: Seq<char>, value: Option<Seq<char>>) -> Result<
    (),
    ToolErrorModel,
> {
    match value {
        Some(v) => required_text_rule(label, v),
        None => Ok(()),
    }
}

/// `required_text_rule` on each value in order.
pub open spec fn each_required_rule(label: Seq<char>, values: Seq<Seq<char>>) -> Result<
    (),
    ToolErrorModel,
>
    decreases values.len(),
{
    if values.len() == 0 {
        Ok(())
    } else {
        and_then(required_text_rule(label, values[0]), each_required_rule(label, values.drop_first()))
    }
}

/// A tool cannot be hinted both read-only and destructive.
pub open spec fn hints_rule(read_only: Option<bool>, destructive: Option<bool>) -> Result<
    (),
    ToolErrorModel,
> {
    if read_only == Some(true) && destructive == Some(true) {
        Err(validation_error("MCP tool annotation hints cannot be both read-only and destructive"@))
    } else {
        Ok(())
    }
}

/// The annotation rule: consistent hints and a non-blank title.
pub open spec fn annotations_rule(a: McpToolAnnotations) -> Result<(), ToolErrorModel> {
    and_then(
        hints_rule(a.read_only_hint, a.destructive_hint),
        opt_text_rule("annotation title"@, opt_text(a.title)),
    )
}

/// The icon rule: non-blank source, MIME type and sizes.
pub open spec fn icon_rule(src: Seq<char>, mime_type: Option<Seq<char>>, sizes: Seq<Seq<char>>) -> Result<
    (),
    ToolErrorModel,
> {
    and_then(
        required_text_rule("icon src"@, src),
        and_then(
            opt_required_rule("icon mime_type"@, mime_type),
            each_required_rule("icon size"@, sizes),
        ),
    )
}

/// The sizes of an icon definition (none when absent).
pub open spec fn icon_sizes(icon: McpIcon) -> Seq<Seq<char>> {
    match icon.sizes {
        Some(v) => texts(v@),
        None => Seq::empty(),
    }
}

/// The icon rule on each icon definition in order.
pub open spec fn icons_rule(icons: Seq<McpIcon>) -> Result<(), ToolErrorModel>
    decreases icons.len(),
{
    if icons.len() == 0 {
        Ok(())
    } else {
        and_then(
            icon_rule(icons[0].src@, opt_text(icons[0].mime_type), icon_sizes(icons[0])),
            icons_rule(icons.drop_first()),
        )
    }
}

pub open spec fn input_schema_message() -> Seq<char> {
    "MCP tool input schemas must declare `type: \"object\"`"@
}

/// Tool input schemas must declare `type: "object"`.
pub open spec fn input_schema_rule(label: Seq<char>, e: Seq<(Seq<char>, Json)>) -> Result<
    (),
    ToolErrorModel,
> {
    if type_includes(e, "object"@) {
        Ok(())
    } else {
        Err(ToolErrorModel::InvalidSchema { label, message: input_schema_message() })
    }
}

/// The rule for a whole tool definition.
pub open spec fn tool_definition_rule(d: ToolDefinition) -> Result<(), ToolErrorModel> {
    and_then(
        name_rule(d.name@),
        and_then(
            input_schema_rule("input_schema"@, d.input_schema@),
            and_then(
                opt_text_rule("title"@, opt_text(d.title)),
                and_then(
                    opt_text_rule("description"@, opt_text(d.description)),
                    and_then(
                        match d.annotations {
                            Some(a) => annotations_rule(a),
                            None => Ok(()),
                        },
                        match d.icons {
                            Some(v) => icons_rule(v@),
                            None => Ok(()),
                        },
                    ),
                ),
            ),
        ),
    )
}

/// The rule for a resource definition.
pub open spec fn resource_rule(
    uri: Seq<char>,
    name: Seq<char>,
    title: Option<Seq<char>>,
    description: Option<Seq<char>>,
    mime_type: Option<Seq<char>>,
) -> Result<(), ToolErrorModel> {
    and_then(
        required_text_rule("resource uri"@, uri),
        and_then(
            required_text_rule("resource name"@, name),
            and_then(
                opt_text_rule("resource title"@, title),
                and_then(
                    opt_text_rule("resource description"@, description),
                    opt_required_rule("resource mime type"@, mime_type),
                ),
            ),
        ),
    )
}

/// The rule for a resource template definition.
pub open spec fn template_rule(
    uri_template: Seq<char>,
    name: Seq<char>,
    title: Option<Seq<char>>,
    description: Option<Seq<char>>,
    mime_type: Option<Seq<char>>,
) -> Result<(), ToolErrorModel> {
    and_then(
        required_text_rule("resource uri template"@, uri_template),
        and_then(
            required_text_rule("resource template name"@, name),
            and_then(
                opt_text_rule("resource template title"@, title),
                and_then(
                    opt_text_rule("resource template description"@, description),
                    opt_required_rule("resource template mime type"@, mime_type),
                ),
            ),
        ),
    )
}

/// The rule for each prompt argument in order.
pub open spec fn arguments_rule(args: Seq<McpPromptArgument>) -> Result<(), ToolErrorModel>
    decreases args.len(),
{
    if args.len() == 0 {
        Ok(())
    } else {
        and_then(
            and_then(
                name_rule(args[0].name@),
                and_then(
                    opt_text_rule("prompt argument title"@, opt_text(args[0].title)),
                    opt_text_rule("prompt argument description"@, opt_text(args[0].description)),
                ),
            ),
            arguments_rule(args.drop_first()),
        )
    }
}

/// The rule for a prompt definition's parts.
pub open spec fn prompt_parts_rule(
    name: Seq<char>,
    title: Option<Seq<char>>,
    description: Option<Seq<char>>,
    arguments: Option<Seq<McpPromptArgument>>,
) -> Result<(), ToolErrorModel> {
    and_then(
        name_rule(name),
        and_then(
            opt_text_rule("prompt title"@, title),
            and_then(
                opt_text_rule("prompt description"@, description),
                match arguments {
                    Some(v) => arguments_rule(v),
                    None => Ok(()),
                },
            ),
        ),
    )
}

/// The arguments of a prompt definition.
pub open spec fn opt_arguments(o: Option<Vec<McpPromptArgument>>) -> Option<Seq<McpPromptArgument>> {
    match o {
        Some(v) => Some(v@),
        None => None,
    }
}

/// The rule for a prompt definition.
pub open spec fn prompt_rule(d: PromptDefinition) -> Result<(), ToolErrorModel> {
    prompt_parts_rule(d.name@, opt_text(d.title), opt_text(d.description), opt_arguments(d.arguments))
}

// ---------------------------------------------------------------------------
// Validators
// ---------------------------------------------------------------------------
/// Validate an MCP tool name accepted by generated integrations.
pub fn validate_tool_name(name: &str) -> (r: Result<(), McpToolError>)
    ensures
        result_model(r) == name_rule(name@),
{
    match validate_mcp_tool_name(name) {
        Ok(()) => Ok(()),
        Err(error) => {
            let message = error.message();
            Err(McpToolError::validation(message.as_str()))
        },
    }
}

/// Validate human-readable MCP tool metadata text.
pub fn validate_tool_metadata_text(label: &str, value: &str) -> (r: Result<(), McpToolError>)
    ensures
        result_model(r) == text_rule(label@, value@),
{
    match validate_mcp_tool_metadata_text(label, value) {
        Ok(()) => Ok(()),
        Err(error) => {
            let message = error.message();
            Err(McpToolError::validation(message.as_str()))
        },
    }
}

/// Validate required metadata text: blank text is a schema error.
pub fn validate_required_metadata_text(label: &str, value: &str) -> (r: Result<(), McpToolError>)
    ensures
        result_model(r) == required_text_rule(label@, value@),
{
    proof {
        reveal_strlit("must not be empty");
    }
    if blank(value) {
        return Err(McpToolError::invalid_schema(label, "must not be empty"));
    }
    validate_tool_metadata_text(label, value)
}

fn validate_optional_text(label: &str, value: &Option<String>) -> (r: Result<(), McpToolError>)
    ensures
        result_model(r) == opt_text_rule(label@, opt_text(*value)),
{
    match value {
        Some(v) => validate_tool_metadata_text(label, v.as_str()),
        None => Ok(()),
    }
}

fn validate_optional_required(label: &str, value: &Option<String>) -> (r: Result<
    (),
    McpToolError,
>)
    ensures
        result_model(r) == opt_required_rule(label@, opt_text(*value)),
{
    match value {
        Some(v) => validate_required_metadata_text(label, v.as_str()),
        None => Ok(()),
    }
}

/// Validate that annotation hints are not both read-only and destructive.
pub fn validate_tool_annotation_hints(read_only: Option<bool>, destructive: Option<bool>) -> (r:
    Result<(), McpToolError>)
    ensures
        result_model(r) == hints_rule(read_only, destructive),
{
    proof {
        reveal_strlit("MCP tool annotation hints cannot be both read-only and destructive");
    }
    if read_only == Some(true) && destructive == Some(true) {
        return Err(
            McpToolError::validation(
                "MCP tool annotation hints cannot be both read-only and destructive",
            ),
        );
    }
    Ok(())
}

/// Validate MCP tool annotations accepted by generated integrations.
pub fn validate_tool_annotations(annotations: &McpToolAnnotations) -> (r: Result<
    (),
    McpToolError,
>)
    ensures
        result_model(r) == annotations_rule(*annotations),
{
    match validate_tool_annotation_hints(annotations.read_only_hint, annotations.destructive_hint) {
        Ok(()) => {},
        Err(e) => {
            return Err(e);
        },
    }
    validate_optional_text("annotation title", &annotations.title)
}

/// `required_text_rule` on each string in order.
pub fn validate_each_required(label: &str, values: &Vec<String>) -> (r: Result<(), McpToolError>)
    ensures
        result_model(r) == each_required_rule(label@, texts(values@)),
{
    let ghost all = texts(values@);
    let n = values.len();
    let mut i: usize = 0;
    assert(all.subrange(0, n as int) =~= all);
    while i < n
        invariant
            n == values@.len(),
            all == texts(values@),
            i <= n,
            each_required_rule(label@, all) == each_required_rule(
                label@,
                all.subrange(i as int, n as int),
            ),
        decreases n - i,
    {
        let ghost rest = all.subrange(i as int, n as int);
        assert(rest[0] == values@[i as int]@);
        assert(rest.drop_first() =~= all.subrange(i as int + 1, n as int));
        match validate_required_metadata_text(label, values[i].as_str()) {
            Ok(()) => {},
            Err(e) => {
                return Err(e);
            },
        }
        i = i + 1;
    }
    assert(all.subrange(n as int, n as int) =~= Seq::<Seq<char>>::empty());
    Ok(())
}

fn validate_icon_definition(icon: &McpIcon) -> (r: Result<(), McpToolError>)
    ensures
        result_model(r) == icon_rule(icon.src@, opt_text(icon.mime_type), icon_sizes(*icon)),
{
    match validate_required_metadata_text("icon src", icon.src.as_str()) {
        Ok(()) => {},
        Err(e) => {
            return Err(e);
        },
    }
    match validate_optional_required("icon mime_type", &icon.mime_type) {
        Ok(()) => {},
        Err(e) => {
            return Err(e);
        },
    }
    match &icon.sizes {
        Some(sizes) => validate_each_required("icon size", sizes),
        None => Ok(()),
    }
}

fn validate_icons(icons: &Vec<McpIcon>) -> (r: Result<(), McpToolError>)
    ensures
        result_model(r) == icons_rule(icons@),
{
    let ghost all = icons@;
    let n = icons.len();
    let mut i: usize = 0;
    assert(all.subrange(0, n as int) =~= all);
    while i < n
        invariant
            n == icons@.len(),
            all == icons@,
            i <= n,
            icons_rule(all) == icons_rule(all.subrange(i as int, n as int)),
        decreases n - i,
    {
        let ghost rest = all.subrange(i as int, n as int);
        assert(rest.drop_first() =~= all.subrange(i as int + 1, n as int));
        match validate_icon_definition(&icons[i]) {
            Ok(()) => {},
            Err(e) => {
                return Err(e);
            },
        }
        i = i + 1;
    }
    assert(all.subrange(n as int, n as int) =~= Seq::<McpIcon>::empty());
    Ok(())
}

fn validate_tool_input_schema(label: &str, schema: &JsonMap) -> (r: Result<(), McpToolError>)
    ensures
        result_model(r) == input_schema_rule(label@, schema@),
{
    if schema_type_includes(schema, "object") {
        Ok(())
    } else {
        Err(McpToolError::invalid_schema(label, "MCP tool input schemas must declare `type: \"object\"`"))
    }
}

/// Validate an MCP tool definition: its name, input schema, title,
/// description, annotations and icons, in that order.
pub fn validate_tool_definition(definition: &ToolDefinition) -> (r: Result<(), McpToolError>)
    ensures
        result_model(r) == tool_definition_rule(*definition),
{
    match validate_tool_name(definition.name.as_str()) {
        Ok(()) => {},
        Err(e) => {
            return Err(e);
        },
    }
    match validate_tool_input_schema("input_schema", &definition.input_schema) {
        Ok(()) => {},
        Err(e) => {
            return Err(e);
        },
    }
    match validate_optional_text("title", &definition.title) {
        Ok(()) => {},
        Err(e) => {
            return Err(e);
        },
    }
    match validate_optional_text("description", &definition.description) {
        Ok(()) => {},
        Err(e) => {
            return Err(e);
        },
    }
    match &definition.annotations {
        Some(a) => match validate_tool_annotations(a) {
            Ok(()) => {},
            Err(e) => {
                return Err(e);
            },
        },
        None => {},
    }
    match &definition.icons {
        Some(icons) => validate_icons(icons),
        None => Ok(()),
    }
}

/// Validate a concrete MCP resource definition.
pub fn validate_resource_definition(definition: &ResourceDefinition) -> (r: Result<
    (),
    McpToolError,
>)
    ensures
        result_model(r) == resource_rule(
            definition.uri@,
            definition.name@,
            opt_text(definition.title),
            opt_text(definition.description),
            opt_text(definition.mime_type),
        ),
{
    match validate_required_metadata_text("resource uri", definition.uri.as_str()) {
        Ok(()) => {},
        Err(e) => {
            return Err(e);
        },
    }
    match validate_required_metadata_text("resource name", definition.name.as_str()) {
        Ok(()) => {},
        Err(e) => {
            return Err(e);
        },
    }
    match validate_optional_text("resource title", &definition.title) {
        Ok(()) => {},
        Err(e) => {
            return Err(e);
        },
    }
    match validate_optional_text("resource description", &definition.description) {
        Ok(()) => {},
        Err(e) => {
            return Err(e);
        },
    }
    validate_optional_required("resource mime type", &definition.mime_type)
}

/// Validate an MCP resource template definition.
pub fn validate_resource_template(definition: &ResourceTemplateDefinition) -> (r: Result<
    (),
    McpToolError,
>)
    ensures
        result_model(r) == template_rule(
            definition.uri_template@,
            definition.name@,
            opt_text(definition.title),
            opt_text(definition.description),
            opt_text(definition.mime_type),
        ),
{
    match validate_required_metadata_text(
        "resource uri template",
        definition.uri_template.as_str(),
    ) {
        Ok(()) => {},
        Err(e) => {
            return Err(e);
        },
    }
    match validate_required_metadata_text("resource template name", definition.name.as_str()) {
        Ok(()) => {},
        Err(e) => {
            return Err(e);
        },
    }
    match validate_optional_text("resource template title", &definition.title) {
        Ok(()) => {},
        Err(e) => {
            return Err(e);
        },
    }
    match validate_optional_text("resource template description", &definition.description) {
        Ok(()) => {},
        Err(e) => {
            return Err(e);
        },
    }
    validate_optional_required("resource template mime type", &definition.mime_type)
}

fn validate_prompt_arguments(args: &Vec<McpPromptArgument>) -> (r: Result<(), McpToolError>)
    ensures
        result_model(r) == arguments_rule(args@),
{
    let ghost all = args@;
    let n = args.len();
    let mut i: usize = 0;
    assert(all.subrange(0, n as int) =~= all);
    while i < n
        invariant
            n == args@.len(),
            all == args@,
            i <= n,
            arguments_rule(all) == arguments_rule(all.subrange(i as int, n as int)),
        decreases n - i,
    {
        let ghost rest = all.subrange(i as int, n as int);
        assert(rest.drop_first() =~= all.subrange(i as int + 1, n as int));
        let argument = &args[i];
        match validate_tool_name(argument.name.as_str()) {
            Ok(()) => {},
            Err(e) => {
                return Err(e);
            },
        }
        match validate_optional_text("prompt argument title", &argument.title) {
            Ok(()) => {},
            Err(e) => {
                return Err(e);
            },
        }
        match validate_optional_text("prompt argument description", &argument.description) {
            Ok(()) => {},
            Err(e) => {
                return Err(e);
            },
        }
        i = i + 1;
    }
    assert(all.subrange(n as int, n as int) =~= Seq::<McpPromptArgument>::empty());
    Ok(())
}

/// Validate an MCP prompt definition: name, title, description, arguments.
pub fn validate_prompt_definition(definition: &PromptDefinition) -> (r: Result<
    (),
    McpToolError,
>)
    ensures
        result_model(r) == prompt_rule(*definition),
{
    match validate_tool_name(definition.name.as_str()) {
        Ok(()) => {},
        Err(e) => {
            return Err(e);
        },
    }
    match validate_optional_text("prompt title", &definition.title) {
        Ok(()) => {},
        Err(e) => {
            return Err(e);
        },
    }
    match validate_optional_text("prompt description", &definition.description) {
        Ok(()) => {},
        Err(e) => {
            return Err(e);
        },
    }
    match &definition.arguments {
        Some(args) => validate_prompt_arguments(args),
        None => Ok(()),
    }
}

// ---------------------------------------------------------------------------
// Builders
// ---------------------------------------------------------------------------
pub open spec fn schema_object_message() -> Seq<char> {
    "MCP tool schemas must be JSON objects"@
}

/// A tool schema must be a JSON object.
pub open spec fn schema_object_rule(label: Seq<char>, schema: Json) -> Result<(), ToolErrorModel> {
    match schema {
        Json::Object(_) => Ok(()),
        _ => Err(ToolErrorModel::InvalidSchema { label, message: schema_object_message() }),
    }
}

/// A tool input schema must be a JSON object declaring `type: "object"`.
pub open spec fn input_object_rule(label: Seq<char>, schema: Json) -> Result<(), ToolErrorModel> {
    match schema {
        Json::Object(e) => input_schema_rule(label, e),
        _ => Err(ToolErrorModel::InvalidSchema { label, message: schema_object_message() }),
    }
}

/// A tool output schema must be a JSON object; its root type is checked
/// against each result's structured content when the tool is called.
pub open spec fn output_object_rule(label: Seq<char>, schema: Json) -> Result<(), ToolErrorModel> {
    schema_object_rule(label, schema)
}

/// The rule for building a tool definition: name, title, description, then
/// the input and output schemas.
pub open spec fn tool_build_rule(
    name: Seq<char>,
    title: Option<Seq<char>>,
    description: Option<Seq<char>>,
    input: Json,
    output: Option<Json>,
) -> Result<(), ToolErrorModel> {
    and_then(
        name_rule(name),
        and_then(
            opt_text_rule("title"@, title),
            and_then(
                opt_text_rule("description"@, description),
                and_then(
                    input_object_rule("input_schema"@, input),
                    match output {
                        Some(o) => output_object_rule("output_schema"@, o),
                        None => Ok(()),
                    },
                ),
            ),
        ),
    )
}

/// The entries of an object schema.
pub open spec fn object_entries(schema: Json) -> Seq<(Seq<char>, Json)> {
    match schema {
        Json::Object(e) => e,
        _ => Seq::empty(),
    }
}

/// A built tool definition carries the given name, texts and schemas.
pub open spec fn tool_built_from(
    d: ToolDefinition,
    name: Seq<char>,
    title: Option<Seq<char>>,
    description: Option<Seq<char>>,
    input: Json,
    output: Option<Json>,
) -> bool {
    &&& d.name@ == name
    &&& opt_text(d.title) == title
    &&& opt_text(d.description) == description
    &&& d.input_schema@ == object_entries(input)
    &&& match output {
        Some(o) => d.output_schema matches Some(m) && m@ == object_entries(o),
        None => d.output_schema is None,
    }
}

/// Converts an MCP schema into a JSON object.
pub fn schema_object(label: &str, schema: McpSchema) -> (r: Result<JsonMap, McpToolError>)
    ensures
        match r {
            Ok(m) => schema_object_rule(label@, schema@) is Ok && Json::Object(m@) == schema@,
            Err(e) => schema_object_rule(label@, schema@) == Err::<(), ToolErrorModel>(e@),
        },
{
    match schema.into_value() {
        JsonValue::Object(object) => {
            proof {
                crate::json::lemma_object_view(object);
            }
            Ok(object)
        },
        _ => Err(McpToolError::invalid_schema(label, "MCP tool schemas must be JSON objects")),
    }
}

fn input_schema_object(label: &str, schema: McpSchema) -> (r: Result<JsonMap, McpToolError>)
    ensures
        match r {
            Ok(m) => input_object_rule(label@, schema@) is Ok && Json::Object(m@) == schema@,
            Err(e) => input_object_rule(label@, schema@) == Err::<(), ToolErrorModel>(e@),
        },
{
    let object = match schema_object(label, schema) {
        Ok(o) => o,
        Err(e) => {
            return Err(e);
        },
    };
    match validate_tool_input_schema(label, &object) {
        Ok(()) => Ok(object),
        Err(e) => Err(e),
    }
}

fn output_schema_object(label: &str, schema: McpSchema) -> (r: Result<JsonMap, McpToolError>)
    ensures
        match r {
            Ok(m) => output_object_rule(label@, schema@) is Ok && Json::Object(m@) == schema@,
            Err(e) => output_object_rule(label@, schema@) == Err::<(), ToolErrorModel>(e@),
        },
{
    schema_object(label, schema)
}

/// The view of an optional schema.
pub open spec fn opt_schema(o: Option<McpSchema>) -> Option<Json> {
    match o {
        Some(s) => Some(s@),
        None => None,
    }
}

/// Build and validate an MCP tool definition.
pub fn tool_definition(
    name: &str,
    title: Option<String>,
    description: Option<String>,
    input_schema: McpSchema,
    output_schema: Option<McpSchema>,
) -> (r: Result<ToolDefinition, McpToolError>)
    ensures
        match r {
            Ok(d) => {
                &&& tool_build_rule(
                    name@,
                    opt_text(title),
                    opt_text(description),
                    input_schema@,
                    opt_schema(output_schema),
                ) is Ok
                &&& tool_built_from(
                    d,
                    name@,
                    opt_text(title),
                    opt_text(description),
                    input_schema@,
                    opt_schema(output_schema),
                )
                &&& d.annotations is None
                &&& d.icons is None
                &&& d.execution is None
            },
            Err(e) => tool_build_rule(
                name@,
                opt_text(title),
                opt_text(description),
                input_schema@,
                opt_schema(output_schema),
            ) == Err::<(), ToolErrorModel>(e@),
        },
{
    match validate_tool_name(name) {
        Ok(()) => {},
        Err(e) => {
            return Err(e);
        },
    }
    match validate_optional_text("title", &title) {
        Ok(()) => {},
        Err(e) => {
            return Err(e);
        },
    }
    match validate_optional_text("description", &description) {
        Ok(()) => {},
        Err(e) => {
            return Err(e);
        },
    }
    let input = match input_schema_object("input_schema", input_schema) {
        Ok(o) => o,
        Err(e) => {
            return Err(e);
        },
    };
    let output = match output_schema {
        Some(schema) => match output_schema_object("output_schema", schema) {
            Ok(o) => Some(o),
            Err(e) => {
                return Err(e);
            },
        },
        None => None,
    };
    Ok(
        ToolDefinition {
            name: String::from_str(name),
            title,
            description,
            input_schema: input,
            output_schema: output,
            annotations: None,
            icons: None,
            execution: None,
        },
    )
}

/// Build and validate an MCP tool definition with tool annotations, which
/// are checked first.
pub fn tool_definition_with_annotations(
    name: &str,
    title: Option<String>,
    description: Option<String>,
    input_schema: McpSchema,
    output_schema: Option<McpSchema>,
    annotations: Option<McpToolAnnotations>,
) -> (r: Result<ToolDefinition, McpToolError>)
    ensures
        ({
            let rule = and_then(
                match annotations {
                    Some(a) => annotations_rule(a),
                    None => Ok(()),
                },
                tool_build_rule(
                    name@,
                    opt_text(title),
                    opt_text(description),
                    input_schema@,
                    opt_schema(output_schema),
                ),
            );
            match r {
                Ok(d) => {
                    &&& rule is Ok
                    &&& tool_built_from(
                        d,
                        name@,
                        opt_text(title),
                        opt_text(description),
                        input_schema@,
                        opt_schema(output_schema),
                    )
                    &&& d.annotations == annotations
                    &&& d.icons is None
                    &&& d.execution is None
                },
                Err(e) => rule == Err::<(), ToolErrorModel>(e@),
            }
        }),
{
    match &annotations {
        Some(a) => match validate_tool_annotations(a) {
            Ok(()) => {},
            Err(e) => {
                return Err(e);
            },
        },
        None => {},
    }
    let mut tool = match tool_definition(name, title, description, input_schema, output_schema) {
        Ok(t) => t,
        Err(e) => {
            return Err(e);
        },
    };
    tool.annotations = annotations;
    Ok(tool)
}

/// Build and validate a concrete MCP resource definition.
pub fn resource_definition(
    uri: &str,
    name: &str,
    title: Option<String>,
    description: Option<String>,
    mime_type: Option<String>,
) -> (r: Result<ResourceDefinition, McpToolError>)
    ensures
        ({
            let rule = resource_rule(
                uri@,
                name@,
                opt_text(title),
                opt_text(description),
                opt_text(mime_type),
            );
            match r {
                Ok(d) => {
                    &&& rule is Ok
                    &&& d.uri@ == uri@
                    &&& d.name@ == name@
                    &&& opt_text(d.title) == opt_text(title)
                    &&& opt_text(d.description) == opt_text(description)
                    &&& opt_text(d.mime_type) == opt_text(mime_type)
                },
                Err(e) => rule == Err::<(), ToolErrorModel>(e@),
            }
        }),
{
    let resource = ResourceDefinition {
        uri: String::from_str(uri),
        name: String::from_str(name),
        title,
        description,
        mime_type,
    };
    match validate_resource_definition(&resource) {
        Ok(()) => Ok(resource),
        Err(e) => Err(e),
    }
}

/// Build and validate an MCP resource template definition.
pub fn resource_template_definition(
    uri_template: &str,
    name: &str,
    title: Option<String>,
    description: Option<String>,
    mime_type: Option<String>,
) -> (r: Result<ResourceTemplateDefinition, McpToolError>)
    ensures
        ({
            let rule = template_rule(
                uri_template@,
                name@,
                opt_text(title),
                opt_text(description),
                opt_text(mime_type),
            );
            match r {
                Ok(d) => {
                    &&& rule is Ok
                    &&& d.uri_template@ == uri_template@
                    &&& d.name@ == name@
                    &&& opt_text(d.title) == opt_text(title)
                    &&& opt_text(d.description) == opt_text(description)
                    &&& opt_text(d.mime_type) == opt_text(mime_type)
                },
                Err(e) => rule == Err::<(), ToolErrorModel>(e@),
            }
        }),
{
    let template = ResourceTemplateDefinition {
        uri_template: String::from_str(uri_template),
        name: String::from_str(name),
        title,
        description,
        mime_type,
    };
    match validate_resource_template(&template) {
        Ok(()) => Ok(template),
        Err(e) => Err(e),
    }
}

/// A text resource result with an explicit MIME type.
pub fn text_resource_result(uri: &str, text: String, mime_type: &str) -> (r: McpResourceResult)
    ensures
        r.contents@.len() == 1,
        r.contents@[0].uri@ == uri@,
        opt_text(r.contents@[0].mime_type) == Some(mime_type@),
        r.contents@[0].text@ == text@,
{
    let mut contents: Vec<McpResourceContents> = Vec::new();
    contents.push(
        McpResourceContents {
            uri: String::from_str(uri),
            mime_type: Some(String::from_str(mime_type)),
            text,
        },
    );
    McpResourceResult { contents }
}

/// A JSON value as a pretty-printed `application/json` resource result.
/// Every value has a JSON text, so the result is always `Ok`; the text is
/// what `serde_json` writes.
pub fn json_resource_result(uri: &str, value: &JsonValue) -> (r: Result<
    McpResourceResult,
    McpToolError,
>)
    ensures
        r matches Ok(res) && {
            &&& res.contents@.len() == 1
            &&& res.contents@[0].uri@ == uri@
            &&& opt_text(res.contents@[0].mime_type) == Some("application/json"@)
            &&& res.contents@[0].text@ == json_pretty_text(value@)
        },
{
    let mut contents: Vec<McpResourceContents> = Vec::new();
    contents.push(
        McpResourceContents {
            uri: String::from_str(uri),
            mime_type: Some(String::from_str("application/json")),
            text: pretty_json_text(value),
        },
    );
    Ok(McpResourceResult { contents })
}

/// Build and validate an MCP prompt definition.
pub fn prompt_definition(
    name: &str,
    title: Option<String>,
    description: Option<String>,
    arguments: Option<Vec<McpPromptArgument>>,
) -> (r: Result<PromptDefinition, McpToolError>)
    ensures
        ({
            let rule = prompt_parts_rule(
                name@,
                opt_text(title),
                opt_text(description),
                opt_arguments(arguments),
            );
            match r {
                Ok(d) => {
                    &&& rule is Ok
                    &&& d.name@ == name@
                    &&& opt_text(d.title) == opt_text(title)
                    &&& opt_text(d.description) == opt_text(description)
                    &&& opt_arguments(d.arguments) == opt_arguments(arguments)
                },
                Err(e) => rule == Err::<(), ToolErrorModel>(e@),
            }
        }),
{
    let prompt = PromptDefinition { name: String::from_str(name), title, description, arguments };
    match validate_prompt_definition(&prompt) {
        Ok(()) => Ok(prompt),
        Err(e) => Err(e),
    }
}

/// A prompt result containing one user text message.
pub fn text_prompt_result(description: Option<String>, text: String) -> (r: McpPromptResult)
    ensures
        opt_text(r.description) == opt_text(description),
        r.messages@.len() == 1,
        r.messages@[0].role == McpPromptMessageRole::User,
        r.messages@[0].text@ == text@,
{
    let mut messages: Vec<McpPromptMessage> = Vec::new();
    messages.push(McpPromptMessage { role: McpPromptMessageRole::User, text });
    McpPromptResult { description, messages }
}


// ---------------------------------------------------------------------------
// Laws
// ---------------------------------------------------------------------------
/// An icon is acceptable when its source is not blank, its MIME type (when
/// given) is not blank, and none of its sizes is blank.
pub open spec fn icon_ok(src: Seq<char>, mime_type: Option<Seq<char>>, sizes: Seq<Seq<char>>) -> bool {
    &&& !is_blank(src)
    &&& mime_type matches Some(m) ==> !is_blank(m)
    &&& forall|j: int| 0 <= j < sizes.len() ==> !is_blank(#[trigger] sizes[j])
}

/// Optional text is acceptable when absent or not blank.
pub open spec fn opt_text_ok(value: Option<Seq<char>>) -> bool {
    value matches Some(t) ==> !is_blank(t)
}

proof fn lemma_each_required_ok(label: Seq<char>, values: Seq<Seq<char>>)
    ensures
        each_required_rule(label, values) is Ok <==> forall|j: int|
            0 <= j < values.len() ==> !is_blank(#[trigger] values[j]),
    decreases values.len(),
{
    if values.len() > 0 {
        let rest = values.drop_first();
        lemma_each_required_ok(label, rest);
        assert forall|j: int| 1 <= j < values.len() implies #[trigger] values[j] == rest[j - 1] by {}
        if !(forall|j: int| 0 <= j < values.len() ==> !is_blank(#[trigger] values[j])) {
            let j = choose|j: int| 0 <= j < values.len() && is_blank(#[trigger] values[j]);
            if j > 0 {
                assert(is_blank(rest[j - 1]));
            }
        }
    }
}

/// The icon rule passes exactly on acceptable icons.
pub proof fn lemma_icon_rule_ok(src: Seq<char>, mime_type: Option<Seq<char>>, sizes: Seq<Seq<char>>)
    ensures
        icon_rule(src, mime_type, sizes) is Ok <==> icon_ok(src, mime_type, sizes),
{
    lemma_each_required_ok("icon size"@, sizes);
}

proof fn lemma_icons_rule_ok(icons: Seq<McpIcon>)
    ensures
        icons_rule(icons) is Ok <==> forall|i: int|
            0 <= i < icons.len() ==> icon_ok(
                (#[trigger] icons[i]).src@,
                opt_text(icons[i].mime_type),
                icon_sizes(icons[i]),
            ),
    decreases icons.len(),
{
    if icons.len() > 0 {
        let rest = icons.drop_first();
        lemma_icons_rule_ok(rest);
        lemma_icon_rule_ok(icons[0].src@, opt_text(icons[0].mime_type), icon_sizes(icons[0]));
        assert forall|i: int| 1 <= i < icons.len() implies #[trigger] icons[i] == rest[i - 1] by {}
    }
}

/// A tool input schema is accepted exactly when its root `type` is
/// `"object"` or an array holding `"object"`; otherwise the error is a schema
/// error for the given label.
pub proof fn lemma_input_schema_root_must_be_object(label: Seq<char>, e: Seq<(Seq<char>, Json)>)
    ensures
        input_schema_rule(label, e) is Ok <==> (map_get(e, "type"@) == Some(
            Json::String("object"@),
        ) || (map_get(e, "type"@) matches Some(Json::Array(ts)) && ts.contains(
            Json::String("object"@),
        ))),
        input_schema_rule(label, e) matches Err(err) ==> err == (ToolErrorModel::InvalidSchema {
            label,
            message: input_schema_message(),
        }),
{
}

/// A tool definition is accepted exactly when its name passes the tool-name
/// check, its input schema's root type is `object`, its title and description
/// are not blank when given, its annotations (when given) are not both
/// read-only and destructive and have no blank title, and every icon is
/// acceptable. The output schema's root is not constrained.
pub proof fn lemma_tool_definition_accepted(d: ToolDefinition)
    ensures
        tool_definition_rule(d) is Ok <==> ({
            &&& tool_name_check(d.name@) is Ok
            &&& type_includes(d.input_schema@, "object"@)
            &&& opt_text_ok(opt_text(d.title))
            &&& opt_text_ok(opt_text(d.description))
            &&& d.annotations matches Some(a) ==> !(a.read_only_hint == Some(true)
                && a.destructive_hint == Some(true)) && opt_text_ok(opt_text(a.title))
            &&& d.icons matches Some(v) ==> forall|i: int|
                0 <= i < v@.len() ==> icon_ok(
                    (#[trigger] v@[i]).src@,
                    opt_text(v@[i].mime_type),
                    icon_sizes(v@[i]),
                )
        }),
{
    match d.icons {
        Some(v) => lemma_icons_rule_ok(v@),
        None => {},
    }
}

} // verus!
