//! Typed MCP values: the JSON Schema a Rust type publishes, typed tool
//! inputs and values, unconstrained values and ranges.

use crate::arguments::{unknown_rule, McpToolCall};
use crate::closed_schema::{closed_check, result_model, validate_value_against_closed_schema};
use crate::definitions::{
    and_then, annotations_rule, opt_schema, tool_build_rule, tool_built_from, tool_definition,
    tool_definition_with_annotations,
};
use crate::input_schema::{
    nullable_json, nullable_schema, primitive_schema, range_json, range_schema,
    schema_allows_null, schema_for_primitive,
};
use crate::json::{Json, JsonMap, JsonValue, NumberModel};
use crate::mcp_input::McpPrimitiveKind;
use crate::normalize::{allows_null, normalize, normalize_value_against_schema};
use crate::protocol::{opt_text, McpToolAnnotations, McpToolExecution, ToolDefinition};
use crate::tool_metadata::{
    chosen_name, has_hints, metadata_rule, tool_definition_with_metadata, McpToolMetadata,
};
use crate::schema::{
    any_schema, array_schema, object_schema, schema_views, string_keyed_object_schema,
    tuple_schema, typed_schema, unique_array_schema, with_keyword, McpSchema, McpSchemaType,
};
use crate::tool_error::{McpToolError, ToolErrorModel};
use std::borrow::Cow;
use std::collections::{BTreeMap, BTreeSet, HashMap, HashSet};
use std::marker::PhantomData;
use vstd::prelude::*;
use vstd::string::*;

verus! {

#[verifier::external_type_specification]
#[verifier::external_body]
pub struct ExDecimal(rust_decimal::Decimal);

#[verifier::external_type_specification]
#[verifier::external_body]
pub struct ExNaiveDate(chrono::NaiveDate);

#[verifier::external_type_specification]
#[verifier::external_body]
pub struct ExNaiveDateTime(chrono::NaiveDateTime);

#[verifier::external_type_specification]
#[verifier::external_body]
pub struct ExPathBuf(std::path::PathBuf);

#[verifier::external_type_specification]
#[verifier::external_body]
pub struct ExPath(std::path::Path);

#[verifier::external_type_specification]
#[verifier::external_body]
pub struct ExSerdeValue(serde_json::Value);

#[verifier::external_type_specification]
#[verifier::external_body]
#[verifier::reject_recursive_types(K)]
#[verifier::reject_recursive_types(V)]
pub struct ExSerdeMap<K, V>(serde_json::Map<K, V>);

/// JSON Schema metadata for typed MCP argument and result values.
pub trait McpJsonSchema {
    /// Returns the JSON Schema for this type.
    fn json_schema() -> McpSchema;
}

impl McpJsonSchema for bool {
    fn json_schema() -> (r: McpSchema)
        ensures
            r@ == primitive_schema(McpPrimitiveKind::Boolean),
    {
        schema_for_primitive(McpPrimitiveKind::Boolean)
    }
}

impl McpJsonSchema for i8 {
    fn json_schema() -> (r: McpSchema)
        ensures
            r@ == primitive_schema(McpPrimitiveKind::Integer),
    {
        schema_for_primitive(McpPrimitiveKind::Integer)
    }
}

impl McpJsonSchema for i16 {
    fn json_schema() -> (r: McpSchema)
        ensures
            r@ == primitive_schema(McpPrimitiveKind::Integer),
    {
        schema_for_primitive(McpPrimitiveKind::Integer)
    }
}

impl McpJsonSchema for i32 {
    fn json_schema() -> (r: McpSchema)
        ensures
            r@ == primitive_schema(McpPrimitiveKind::Integer),
    {
        schema_for_primitive(McpPrimitiveKind::Integer)
    }
}

impl McpJsonSchema for i64 {
    fn json_schema() -> (r: McpSchema)
        ensures
            r@ == primitive_schema(McpPrimitiveKind::Integer),
    {
        schema_for_primitive(McpPrimitiveKind::Integer)
    }
}

impl McpJsonSchema for i128 {
    fn json_schema() -> (r: McpSchema)
        ensures
            r@ == primitive_schema(McpPrimitiveKind::Integer),
    {
        schema_for_primitive(McpPrimitiveKind::Integer)
    }
}

impl McpJsonSchema for isize {
    fn json_schema() -> (r: McpSchema)
        ensures
            r@ == primitive_schema(McpPrimitiveKind::Integer),
    {
        schema_for_primitive(McpPrimitiveKind::Integer)
    }
}

impl McpJsonSchema for u8 {
    fn json_schema() -> (r: McpSchema)
        ensures
            r@ == primitive_schema(McpPrimitiveKind::Integer),
    {
        schema_for_primitive(McpPrimitiveKind::Integer)
    }
}

impl McpJsonSchema for u16 {
    fn json_schema() -> (r: McpSchema)
        ensures
            r@ == primitive_schema(McpPrimitiveKind::Integer),
    {
        schema_for_primitive(McpPrimitiveKind::Integer)
    }
}

impl McpJsonSchema for u32 {
    fn json_schema() -> (r: McpSchema)
        ensures
            r@ == primitive_schema(McpPrimitiveKind::Integer),
    {
        schema_for_primitive(McpPrimitiveKind::Integer)
    }
}

impl McpJsonSchema for u64 {
    fn json_schema() -> (r: McpSchema)
        ensures
            r@ == primitive_schema(McpPrimitiveKind::Integer),
    {
        schema_for_primitive(McpPrimitiveKind::Integer)
    }
}

impl McpJsonSchema for u128 {
    fn json_schema() -> (r: McpSchema)
        ensures
            r@ == primitive_schema(McpPrimitiveKind::Integer),
    {
        schema_for_primitive(McpPrimitiveKind::Integer)
    }
}

impl McpJsonSchema for usize {
    fn json_schema() -> (r: McpSchema)
        ensures
            r@ == primitive_schema(McpPrimitiveKind::Integer),
    {
        schema_for_primitive(McpPrimitiveKind::Integer)
    }
}

impl McpJsonSchema for rust_decimal::Decimal {
    fn json_schema() -> (r: McpSchema)
        ensures
            r@ == primitive_schema(McpPrimitiveKind::Decimal),
    {
        schema_for_primitive(McpPrimitiveKind::Decimal)
    }
}

impl McpJsonSchema for String {
    fn json_schema() -> (r: McpSchema)
        ensures
            r@ == primitive_schema(McpPrimitiveKind::String),
    {
        schema_for_primitive(McpPrimitiveKind::String)
    }
}

impl McpJsonSchema for str {
    fn json_schema() -> (r: McpSchema)
        ensures
            r@ == primitive_schema(McpPrimitiveKind::String),
    {
        schema_for_primitive(McpPrimitiveKind::String)
    }
}

impl McpJsonSchema for char {
    fn json_schema() -> (r: McpSchema)
        ensures
            r@ == primitive_schema(McpPrimitiveKind::String),
    {
        schema_for_primitive(McpPrimitiveKind::String)
    }
}

impl McpJsonSchema for std::path::PathBuf {
    fn json_schema() -> (r: McpSchema)
        ensures
            r@ == primitive_schema(McpPrimitiveKind::String),
    {
        schema_for_primitive(McpPrimitiveKind::String)
    }
}

impl McpJsonSchema for std::path::Path {
    fn json_schema() -> (r: McpSchema)
        ensures
            r@ == primitive_schema(McpPrimitiveKind::String),
    {
        schema_for_primitive(McpPrimitiveKind::String)
    }
}

impl McpJsonSchema for chrono::NaiveDate {
    fn json_schema() -> (r: McpSchema)
        ensures
            r@ == primitive_schema(McpPrimitiveKind::Date),
    {
        schema_for_primitive(McpPrimitiveKind::Date)
    }
}

impl McpJsonSchema for chrono::NaiveDateTime {
    fn json_schema() -> (r: McpSchema)
        ensures
            r@ == primitive_schema(McpPrimitiveKind::DateTime),
    {
        schema_for_primitive(McpPrimitiveKind::DateTime)
    }
}

impl McpJsonSchema for () {
    fn json_schema() -> (r: McpSchema)
        ensures
            r@ == typed_schema(McpSchemaType::Null),
    {
        McpSchema::null()
    }
}

impl McpJsonSchema for serde_json::Value {
    fn json_schema() -> (r: McpSchema)
        ensures
            r@ == any_schema(),
    {
        McpSchema::any()
    }
}

impl McpJsonSchema for JsonValue {
    fn json_schema() -> (r: McpSchema)
        ensures
            r@ == any_schema(),
    {
        McpSchema::any()
    }
}

impl<T: McpJsonSchema> McpJsonSchema for Option<T> {
    fn json_schema() -> (r: McpSchema)
        ensures
            exists|s: McpSchema| call_ensures(T::json_schema, (), s) && r@ == nullable_json(s@),
    {
        nullable_schema(T::json_schema())
    }
}

/// `{ "type": "array", "items": item }`.
pub open spec fn array_json(item: Json) -> Json {
    with_keyword(typed_schema(McpSchemaType::Array), "items"@, item)
}

/// An array schema whose items are unique.
pub open spec fn unique_array_json(item: Json) -> Json {
    with_keyword(array_json(item), "uniqueItems"@, Json::Bool(true))
}

/// An object schema whose string keys all use `value`.
pub open spec fn string_keyed_json(value: Json) -> Json {
    with_keyword(typed_schema(McpSchemaType::Object), "additionalProperties"@, value)
}

impl<T: McpJsonSchema> McpJsonSchema for Vec<T> {
    fn json_schema() -> (r: McpSchema)
        ensures
            exists|s: McpSchema| call_ensures(T::json_schema, (), s) && r@ == array_json(s@),
    {
        array_schema(T::json_schema())
    }
}

impl<T: McpJsonSchema> McpJsonSchema for [T] {
    fn json_schema() -> (r: McpSchema)
        ensures
            exists|s: McpSchema| call_ensures(T::json_schema, (), s) && r@ == array_json(s@),
    {
        array_schema(T::json_schema())
    }
}

impl<T: McpJsonSchema, const N: usize> McpJsonSchema for [T; N] {
    fn json_schema() -> (r: McpSchema)
        ensures
            exists|s: McpSchema|
                call_ensures(T::json_schema, (), s) && r@ == with_keyword(
                    with_keyword(
                        array_json(s@),
                        "minItems"@,
                        Json::Number(NumberModel::PosInt(N as u64)),
                    ),
                    "maxItems"@,
                    Json::Number(NumberModel::PosInt(N as u64)),
                ),
    {
        let item = T::json_schema();
        let ghost s = item;
        let n: usize = N;
        let a = array_schema(item);
        assert(a@ == array_json(s@));
        let b = a.with_min_items(n);
        assert(b@ == with_keyword(array_json(s@), "minItems"@, Json::Number(NumberModel::PosInt(n as u64))));
        let r = b.with_max_items(n);
        assert(n == N);
        assert(call_ensures(T::json_schema, (), s));
        r
    }
}

impl<A: McpJsonSchema> McpJsonSchema for (A,) {
    fn json_schema() -> (r: McpSchema)
        ensures
            exists|a: McpSchema|
                call_ensures(A::json_schema, (), a) && r@ == tuple_json(seq![a@]),
    {
        let mut items: Vec<McpSchema> = Vec::new();
        items.push(A::json_schema());
        let ghost v = schema_views(items@);
        assert(v =~= seq![items@[0]@]);
        tuple_schema(items)
    }
}

impl<A: McpJsonSchema, B: McpJsonSchema> McpJsonSchema for (A, B) {
    fn json_schema() -> (r: McpSchema)
        ensures
            exists|a: McpSchema, b: McpSchema|
                call_ensures(A::json_schema, (), a) && call_ensures(B::json_schema, (), b) && r@
                    == tuple_json(seq![a@, b@]),
    {
        let mut items: Vec<McpSchema> = Vec::new();
        items.push(A::json_schema());
        items.push(B::json_schema());
        assert(schema_views(items@) =~= seq![items@[0]@, items@[1]@]);
        tuple_schema(items)
    }
}

impl<A: McpJsonSchema, B: McpJsonSchema, C: McpJsonSchema> McpJsonSchema for (A, B, C) {
    fn json_schema() -> (r: McpSchema)
        ensures
            exists|a: McpSchema, b: McpSchema, c: McpSchema|
                call_ensures(A::json_schema, (), a) && call_ensures(B::json_schema, (), b)
                    && call_ensures(C::json_schema, (), c) && r@ == tuple_json(seq![a@, b@, c@]),
    {
        let mut items: Vec<McpSchema> = Vec::new();
        items.push(A::json_schema());
        items.push(B::json_schema());
        items.push(C::json_schema());
        assert(schema_views(items@) =~= seq![items@[0]@, items@[1]@, items@[2]@]);
        tuple_schema(items)
    }
}

impl<
    A: McpJsonSchema,
    B: McpJsonSchema,
    C: McpJsonSchema,
    D: McpJsonSchema,
> McpJsonSchema for (A, B, C, D) {
    fn json_schema() -> (r: McpSchema)
        ensures
            exists|a: McpSchema, b: McpSchema, c: McpSchema, d: McpSchema|
                call_ensures(A::json_schema, (), a) && call_ensures(B::json_schema, (), b)
                    && call_ensures(C::json_schema, (), c) && call_ensures(D::json_schema, (), d)
                    && r@ == tuple_json(seq![a@, b@, c@, d@]),
    {
        let mut items: Vec<McpSchema> = Vec::new();
        items.push(A::json_schema());
        items.push(B::json_schema());
        items.push(C::json_schema());
        items.push(D::json_schema());
        assert(schema_views(items@) =~= seq![items@[0]@, items@[1]@, items@[2]@, items@[3]@]);
        tuple_schema(items)
    }
}

/// A fixed-length tuple schema of the given item schemas.
pub open spec fn tuple_json(items: Seq<Json>) -> Json {
    with_keyword(
        with_keyword(
            with_keyword(typed_schema(McpSchemaType::Array), "prefixItems"@, Json::Array(items)),
            "minItems"@,
            Json::Number(NumberModel::PosInt(items.len() as u64)),
        ),
        "maxItems"@,
        Json::Number(NumberModel::PosInt(items.len() as u64)),
    )
}

impl<T: McpJsonSchema> McpJsonSchema for BTreeSet<T> {
    fn json_schema() -> (r: McpSchema)
        ensures
            exists|s: McpSchema| call_ensures(T::json_schema, (), s) && r@ == unique_array_json(s@),
    {
        unique_array_schema(T::json_schema())
    }
}

impl<T: McpJsonSchema> McpJsonSchema for HashSet<T> {
    fn json_schema() -> (r: McpSchema)
        ensures
            exists|s: McpSchema| call_ensures(T::json_schema, (), s) && r@ == unique_array_json(s@),
    {
        unique_array_schema(T::json_schema())
    }
}

impl<T: McpJsonSchema> McpJsonSchema for BTreeMap<String, T> {
    fn json_schema() -> (r: McpSchema)
        ensures
            exists|s: McpSchema| call_ensures(T::json_schema, (), s) && r@ == string_keyed_json(s@),
    {
        string_keyed_object_schema(T::json_schema())
    }
}

impl<T: McpJsonSchema> McpJsonSchema for HashMap<String, T> {
    fn json_schema() -> (r: McpSchema)
        ensures
            exists|s: McpSchema| call_ensures(T::json_schema, (), s) && r@ == string_keyed_json(s@),
    {
        string_keyed_object_schema(T::json_schema())
    }
}

impl<T: McpJsonSchema> McpJsonSchema for serde_json::Map<String, T> {
    fn json_schema() -> (r: McpSchema)
        ensures
            exists|s: McpSchema| call_ensures(T::json_schema, (), s) && r@ == string_keyed_json(s@),
    {
        string_keyed_object_schema(T::json_schema())
    }
}

impl<T: ?Sized + McpJsonSchema> McpJsonSchema for &T {
    fn json_schema() -> (r: McpSchema)
        ensures
            call_ensures(T::json_schema, (), r),
    {
        T::json_schema()
    }
}

impl<T: McpJsonSchema> McpJsonSchema for Box<T> {
    fn json_schema() -> (r: McpSchema)
        ensures
            call_ensures(T::json_schema, (), r),
    {
        T::json_schema()
    }
}

impl<'a, T: ?Sized + ToOwned + McpJsonSchema> McpJsonSchema for Cow<'a, T> {
    fn json_schema() -> (r: McpSchema)
        ensures
            call_ensures(T::json_schema, (), r),
    {
        T::json_schema()
    }
}

/// Explicit unconstrained JSON value for typed MCP inputs.
#[derive(Debug)]
pub struct McpAny(JsonValue);

impl View for McpAny {
    type V = Json;

    closed spec fn view(&self) -> Json {
        self.0@
    }
}

impl McpAny {
    /// Creates an unconstrained MCP value from raw JSON.
    pub fn new(value: JsonValue) -> (r: Self)
        ensures
            r@ == value@,
    {
        McpAny(value)
    }

    /// Returns the raw JSON value.
    pub fn as_value(&self) -> (r: &JsonValue)
        ensures
            r@ == self@,
    {
        &self.0
    }

    /// Returns the raw JSON value.
    pub fn into_value(self) -> (r: JsonValue)
        ensures
            r@ == self@,
    {
        self.0
    }
}

impl Default for McpAny {
    fn default() -> (r: Self)
        ensures
            r@ == Json::Null,
    {
        McpAny(JsonValue::Null)
    }
}

impl From<JsonValue> for McpAny {
    fn from(value: JsonValue) -> (r: Self) {
        McpAny(value)
    }
}

impl vstd::std_specs::convert::FromSpecImpl<JsonValue> for McpAny {
    open spec fn obeys_from_spec() -> bool {
        true
    }

    closed spec fn from_spec(v: JsonValue) -> Self {
        McpAny(v)
    }
}

impl From<McpAny> for JsonValue {
    fn from(value: McpAny) -> (r: Self) {
        value.0
    }
}

impl vstd::std_specs::convert::FromSpecImpl<McpAny> for JsonValue {
    open spec fn obeys_from_spec() -> bool {
        true
    }

    closed spec fn from_spec(v: McpAny) -> Self {
        v.0
    }
}

impl McpJsonSchema for McpAny {
    fn json_schema() -> (r: McpSchema)
        ensures
            r@ == any_schema(),
    {
        McpSchema::any()
    }
}

/// Typed `{ "min": ..., "max": ... }` range argument used by MCP tools.
#[derive(Clone, Debug, PartialEq, Eq)]
pub struct McpRange<T> {
    /// Inclusive lower range bound.
    pub min: Option<T>,
    /// Inclusive upper range bound.
    pub max: Option<T>,
}

impl<T> McpRange<T> {
    /// Creates a range argument from optional bounds.
    pub fn new(min: Option<T>, max: Option<T>) -> (r: Self)
        ensures
            r.min == min,
            r.max == max,
    {
        McpRange { min, max }
    }

    /// Returns this range as `(min, max)`.
    pub fn into_tuple(self) -> (r: (Option<T>, Option<T>))
        ensures
            r == (self.min, self.max),
    {
        (self.min, self.max)
    }
}

impl<T> Default for McpRange<T> {
    fn default() -> (r: Self)
        ensures
            r.min is None,
            r.max is None,
    {
        McpRange { min: None, max: None }
    }
}

impl<T> From<(Option<T>, Option<T>)> for McpRange<T> {
    fn from(bounds: (Option<T>, Option<T>)) -> (r: Self) {
        let (min, max) = bounds;
        Self::new(min, max)
    }
}

impl<T> vstd::std_specs::convert::FromSpecImpl<(Option<T>, Option<T>)> for McpRange<T> {
    open spec fn obeys_from_spec() -> bool {
        true
    }

    open spec fn from_spec(v: (Option<T>, Option<T>)) -> Self {
        McpRange { min: v.0, max: v.1 }
    }
}

impl<T> From<McpRange<T>> for (Option<T>, Option<T>) {
    fn from(value: McpRange<T>) -> (r: Self) {
        value.into_tuple()
    }
}

impl<T> vstd::std_specs::convert::FromSpecImpl<McpRange<T>> for (Option<T>, Option<T>) {
    open spec fn obeys_from_spec() -> bool {
        true
    }

    open spec fn from_spec(v: McpRange<T>) -> Self {
        (v.min, v.max)
    }
}

impl<T: McpJsonSchema> McpJsonSchema for McpRange<T> {
    fn json_schema() -> (r: McpSchema)
        ensures
            exists|s: McpSchema| call_ensures(T::json_schema, (), s) && r@ == range_json(s@),
    {
        range_schema(T::json_schema())
    }
}

// ---------------------------------------------------------------------------
// Typed tool values and inputs
// ---------------------------------------------------------------------------
/// Decoding a checked, normalized JSON value into a Rust value (the role
/// serde's `Deserialize` plays for generated integrations).
pub trait McpJsonDecode: Sized {
    /// Decodes `value` for the named field.
    fn decode_json(field: &str, value: JsonValue) -> Result<Self, McpToolError>;
}

/// What a field value becomes before decoding: `null` is rejected unless the
/// schema accepts it; otherwise the value must pass the closed-schema check,
/// and is then normalized against the schema.
pub open spec fn prepared_value(field: Seq<char>, schema: Json, value: Json) -> Result<
    Json,
    ToolErrorModel,
> {
    if value == Json::Null && !allows_null(schema) {
        Err(ToolErrorModel::UnexpectedNull { field })
    } else {
        match closed_check(field, schema, value) {
            Ok(()) => Ok(normalize(schema, value)),
            Err(e) => Err(e),
        }
    }
}

/// Check and normalize one field value against its schema.
pub fn prepare_tool_value(field: &str, schema: &McpSchema, value: JsonValue) -> (r: Result<
    JsonValue,
    McpToolError,
>)
    ensures
        match r {
            Ok(v) => prepared_value(field@, schema@, value@) == Ok::<Json, ToolErrorModel>(v@),
            Err(e) => prepared_value(field@, schema@, value@) == Err::<Json, ToolErrorModel>(e@),
        },
{
    if value.is_null() && !schema_allows_null(schema) {
        return Err(McpToolError::UnexpectedNull { field: crate::json::copy_str(field) });
    }
    match validate_value_against_closed_schema(field, schema.as_value(), &value) {
        Ok(()) => {},
        Err(e) => {
            return Err(e);
        },
    }
    Ok(normalize_value_against_schema(schema.as_value(), value))
}

/// Typed value used as one field inside an MCP tool argument object.
pub trait McpToolValue: Sized {
    /// Returns the schema used for this value inside an MCP argument object.
    fn tool_value_schema() -> McpSchema;

    /// Decodes one JSON field value into this type.
    fn from_tool_value(field: &str, value: JsonValue) -> Result<Self, McpToolError>;
}

impl<T: McpJsonSchema + McpJsonDecode> McpToolValue for T {
    fn tool_value_schema() -> (r: McpSchema)
        ensures
            call_ensures(T::json_schema, (), r),
    {
        T::json_schema()
    }

    fn from_tool_value(field: &str, value: JsonValue) -> (r: Result<Self, McpToolError>)
        ensures
            exists|s: McpSchema|
                call_ensures(T::json_schema, (), s) && match prepared_value(field@, s@, value@) {
                    Err(e) => r matches Err(x) && x@ == e,
                    Ok(v) => exists|prepared: JsonValue|
                        prepared@ == v && call_ensures(T::decode_json, (field, prepared), r),
                },
    {
        let schema = T::json_schema();
        match prepare_tool_value(field, &schema, value) {
            Ok(prepared) => T::decode_json(field, prepared),
            Err(e) => Err(e),
        }
    }
}

/// Typed MCP tool input decoded from a protocol argument object.
pub trait McpToolInput: Sized {
    /// Returns the input object's JSON Schema.
    fn input_schema() -> McpSchema;

    /// Decodes a normalized tool call into this input type.
    fn from_tool_call(call: McpToolCall) -> Result<Self, McpToolError>;
}

impl McpToolInput for () {
    fn input_schema() -> (r: McpSchema)
        ensures
            r@ == with_keyword(
                with_keyword(
                    with_keyword(
                        typed_schema(McpSchemaType::Object),
                        "properties"@,
                        Json::Object(Seq::empty()),
                    ),
                    "required"@,
                    Json::Array(Seq::empty()),
                ),
                "additionalProperties"@,
                Json::Bool(false),
            ),
    {
        let r = object_schema(Vec::new(), Vec::new());
        assert(crate::schema::property_views(Seq::<(String, McpSchema)>::empty()) =~= Seq::<
            (Seq<char>, Json),
        >::empty());
        assert(Seq::new(0, |i: int| Json::String(Seq::<String>::empty()[i]@)) =~= Seq::<
            Json,
        >::empty());
        r
    }

    fn from_tool_call(call: McpToolCall) -> (r: Result<Self, McpToolError>)
        ensures
            result_model(r) == unknown_rule(call@),
    {
        call.into_arguments().finish()
    }
}

/// Tool definition paired with the typed MCP input it was built from.
#[derive(Debug)]
pub struct McpTypedTool<Input> {
    definition: ToolDefinition,
    input: PhantomData<Input>,
}

impl<Input> McpTypedTool<Input> {
    /// The wrapped definition.
    pub closed spec fn spec_definition(&self) -> ToolDefinition {
        self.definition
    }

    /// Pairs a definition built from `Input`'s schema with `Input`.
    pub(crate) fn from_definition_unchecked(definition: ToolDefinition) -> (r: Self)
        ensures
            r.spec_definition() == definition,
    {
        McpTypedTool { definition, input: PhantomData }
    }

    /// Returns the wrapped MCP tool definition.
    pub fn definition(&self) -> (r: &ToolDefinition)
        ensures
            *r == self.spec_definition(),
    {
        &self.definition
    }

    /// Returns the wrapped MCP tool definition mutably.
    pub fn definition_mut(&mut self) -> (r: &mut ToolDefinition)
        ensures
            *r == old(self).spec_definition(),
            final(self).spec_definition() == *final(r),
    {
        &mut self.definition
    }

    /// Returns the wrapped MCP tool definition.
    pub fn into_definition(self) -> (r: ToolDefinition)
        ensures
            r == self.spec_definition(),
    {
        self.definition
    }
}

impl<Input> AsRef<ToolDefinition> for McpTypedTool<Input> {
    fn as_ref(&self) -> &ToolDefinition {
        &self.definition
    }
}

/// Build and validate a typed MCP tool definition from its input type.
pub fn tool_definition_for_input<Input: McpToolInput>(
    name: &str,
    title: Option<String>,
    description: Option<String>,
    output_schema: Option<McpSchema>,
) -> (r: Result<McpTypedTool<Input>, McpToolError>)
    ensures
        exists|s: McpSchema|
            call_ensures(Input::input_schema, (), s) && {
                let rule = tool_build_rule(
                    name@,
                    opt_text(title),
                    opt_text(description),
                    s@,
                    opt_schema(output_schema),
                );
                match r {
                    Ok(t) => rule is Ok && tool_built_from(
                        t.spec_definition(),
                        name@,
                        opt_text(title),
                        opt_text(description),
                        s@,
                        opt_schema(output_schema),
                    ),
                    Err(e) => rule == Err::<(), ToolErrorModel>(e@),
                }
            },
{
    match tool_definition(name, title, description, Input::input_schema(), output_schema) {
        Ok(d) => Ok(McpTypedTool::from_definition_unchecked(d)),
        Err(e) => Err(e),
    }
}

/// Build and validate a typed MCP tool definition with tool annotations.
pub fn tool_definition_for_input_with_annotations<Input: McpToolInput>(
    name: &str,
    title: Option<String>,
    description: Option<String>,
    output_schema: Option<McpSchema>,
    annotations: Option<McpToolAnnotations>,
) -> (r: Result<McpTypedTool<Input>, McpToolError>)
    ensures
        exists|s: McpSchema|
            call_ensures(Input::input_schema, (), s) && {
                let rule = and_then(
                    match annotations {
                        Some(a) => annotations_rule(a),
                        None => Ok(()),
                    },
                    tool_build_rule(
                        name@,
                        opt_text(title),
                        opt_text(description),
                        s@,
                        opt_schema(output_schema),
                    ),
                );
                match r {
                    Ok(t) => {
                        &&& rule is Ok
                        &&& tool_built_from(
                            t.spec_definition(),
                            name@,
                            opt_text(title),
                            opt_text(description),
                            s@,
                            opt_schema(output_schema),
                        )
                        &&& t.spec_definition().annotations == annotations
                        &&& t.spec_definition().icons is None
                        &&& t.spec_definition().execution is None
                    },
                    Err(e) => rule == Err::<(), ToolErrorModel>(e@),
                }
            },
{
    match tool_definition_with_annotations(
        name,
        title,
        description,
        Input::input_schema(),
        output_schema,
        annotations,
    ) {
        Ok(d) => Ok(McpTypedTool::from_definition_unchecked(d)),
        Err(e) => Err(e),
    }
}

/// Build and validate a typed MCP tool definition from generated metadata.
pub fn tool_definition_for_input_with_metadata<Input: McpToolInput>(
    default_name: &str,
    metadata: McpToolMetadata,
    output_schema: Option<McpSchema>,
) -> (r: Result<McpTypedTool<Input>, McpToolError>)
    ensures
        exists|s: McpSchema|
            call_ensures(Input::input_schema, (), s) && {
                let m = metadata@;
                let rule = and_then(
                    metadata_rule(m),
                    tool_build_rule(
                        chosen_name(m, default_name@),
                        m.title,
                        m.description,
                        s@,
                        opt_schema(output_schema),
                    ),
                );
                match r {
                    Ok(t) => {
                        &&& rule is Ok
                        &&& tool_built_from(
                            t.spec_definition(),
                            chosen_name(m, default_name@),
                            m.title,
                            m.description,
                            s@,
                            opt_schema(output_schema),
                        )
                        &&& (t.spec_definition().annotations is Some <==> has_hints(m))
                        &&& (t.spec_definition().icons is Some <==> m.icons.len() > 0)
                        &&& t.spec_definition().execution == (match m.task_support {
                            Some(k) => Some(McpToolExecution { task_support: Some(k) }),
                            None => None,
                        })
                    },
                    Err(e) => rule == Err::<(), ToolErrorModel>(e@),
                }
            },
{
    match tool_definition_with_metadata(default_name, metadata, Input::input_schema(), output_schema) {
        Ok(d) => Ok(McpTypedTool::from_definition_unchecked(d)),
        Err(e) => Err(e),
    }
}

} // verus!
