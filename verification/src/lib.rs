//! Framework-neutral component shape metadata, naming utilities and the MCP
//! schema, validation, decoding and registry helpers built on them.

pub mod json;
pub mod json_text;
pub mod literal;
pub mod text;
pub mod tool_error;
pub mod schema_lookup;
pub mod closed_schema;
pub mod normalize;
pub mod mcp_input;
pub mod schema;
pub mod validation;
pub mod input_schema;
pub mod names;
pub mod component_suffix;
pub mod capabilities;
pub mod rust_syntax;
pub mod shape_use;
pub mod protocol;
pub mod definitions;
pub mod tool_metadata;
pub mod results;
pub mod arguments;
pub mod typed;
pub mod decode;
pub mod keyed;
pub mod server;
pub mod json_resources;
pub mod smoke;
pub mod tasks;

pub use crate::arguments::{reject_unknown_arguments, McpArguments, McpToolCall};
pub use crate::capabilities::{
    ComponentCapabilities, ComponentPrototyping, RenderCapability, ValueBindingCapability,
    ValueChange,
};
pub use crate::closed_schema::{closed_schema_applies_to_value, validate_value_against_closed_schema};
pub use crate::component_suffix::{
    is_valid_ascii_identifier_suffix, is_valid_component_suffix, validate_component_suffix,
    ComponentSuffix, ComponentSuffixError,
};
pub use crate::definitions::{
    json_resource_result, prompt_definition, resource_definition, resource_template_definition,
    schema_object, text_prompt_result, text_resource_result, tool_definition,
    tool_definition_with_annotations, validate_prompt_definition, validate_resource_definition,
    validate_resource_template, validate_tool_annotation_hints, validate_tool_annotations,
    validate_tool_definition, validate_tool_metadata_text, validate_tool_name,
};
pub use crate::input_schema::{
    apply_validation_schema_hints, apply_validation_schema_metadata, mcp_input_descriptor_value,
    nullable_schema, range_schema, schema_allows_null, schema_for_input, schema_for_primitive,
    schema_for_range_bound,
};
pub use crate::json::{JsonMap, JsonNumber, JsonValue};
pub use crate::json_resources::{
    ensure_json_resource_specs_available, ensure_json_resource_specs_distinct,
    json_resource_definitions, register_json_resource_specs,
    register_json_resource_specs_if_missing, JsonResourceReader, McpJsonResourceSpec,
};
pub use crate::mcp_input::{
    validate_mcp_tool_metadata_text, validate_mcp_tool_name, McpInput, McpInputShape,
    McpPrimitiveKind, McpRangeBoundKind, McpToolMetadataError,
};
pub use crate::names::tool_name;
pub use crate::normalize::{normalize_value_against_schema, value_schema_allows_null};
pub use crate::protocol::{
    ContentBlock, McpIcon, McpIconTheme, McpPromptArgument, McpPromptMessage,
    McpPromptMessageRole, McpPromptResult, McpResourceContents, McpResourceResult,
    McpToolAnnotations, McpToolExecution, McpToolTaskSupport, PromptDefinition,
    ResourceDefinition, ResourceTemplateDefinition, ToolCallResult, ToolDefinition,
};
pub use crate::results::{
    serialize_handler_response, serialize_response_value, tool_error_result,
    tool_error_result_for, tool_structured_result,
};
pub use crate::rust_syntax::{RustExpr, RustPath, RustSyntaxError, RustSyntaxKind, RustType};
pub use crate::schema::{
    array_schema, object_schema, string_keyed_object_schema, tuple_schema, unique_array_schema,
    McpAdditionalProperties, McpSchema, McpSchemaNumber, McpSchemaProperties, McpSchemaType,
    McpStringFormat,
};
pub use crate::server::{
    call_typed_handler, typed_tool_input, validate_tool_call_result, McpServer, McpServerBuilder,
    ToolCallStart,
};
pub use crate::shape_use::{
    ComponentFieldName, ComponentShapeFor, ComponentShapeMetadata, ComponentShapeUse,
    DeclaredComponentShape,
};
pub use crate::smoke::{
    tool_call_structured_content, ProcessStatus, ResponseStep, StderrSnapshot,
    MCP_PROTOCOL_VERSION,
};
pub use crate::tool_error::McpToolError;
pub use crate::tool_metadata::{tool_definition_with_metadata, McpToolIcon, McpToolMetadata};
pub use crate::typed::{
    prepare_tool_value, tool_definition_for_input, tool_definition_for_input_with_annotations,
    tool_definition_for_input_with_metadata, McpAny, McpJsonDecode, McpJsonSchema,
    McpRange, McpToolInput, McpToolValue, McpTypedTool,
};
pub use crate::validation::{
    validation_issues_error, McpValidationIssue, McpValidationParam, McpValidationRule,
    McpValidationScope, McpValidationTarget, McpValidationTypeArgMode,
};
