//! Typed JSON Schema values and builders for MCP tool metadata.

use crate::json::{
    copy_str, entries_view, lemma_array_view, lemma_object_view, map_get, map_insert, Json, JsonMap,
    JsonNumber, JsonValue,
};
use crate::tool_error::json_seq;
use vstd::prelude::*;
use vstd::string::*;

verus! {

/// Primitive JSON Schema root types supported by typed schema builders.
#[derive(Clone, Copy, Debug, PartialEq, Eq, Structural)]
pub enum McpSchemaType {
    Null,
    Boolean,
    Integer,
    Number,
    String,
    Array,
    Object,
}

/// The JSON Schema `type` keyword value of a schema type.
pub open spec fn schema_type_name(t: McpSchemaType) -> Seq<char> {
    match t {
        McpSchemaType::Null => "null"@,
        McpSchemaType::Boolean => "boolean"@,
        McpSchemaType::Integer => "integer"@,
        McpSchemaType::Number => "number"@,
        McpSchemaType::String => "string"@,
        McpSchemaType::Array => "array"@,
        McpSchemaType::Object => "object"@,
    }
}

impl McpSchemaType {
    /// Returns the JSON Schema type keyword value.
    pub fn as_str(self) -> (r: &'static str)
        ensures
            r@ == schema_type_name(self),
    {
        match self {
            McpSchemaType::Null => "null",
            McpSchemaType::Boolean => "boolean",
            McpSchemaType::Integer => "integer",
            McpSchemaType::Number => "number",
            McpSchemaType::String => "string",
            McpSchemaType::Array => "array",
            McpSchemaType::Object => "object",
        }
    }
}

/// Standard string formats emitted by component-shape MCP schemas.
#[derive(Clone, Copy, Debug, PartialEq, Eq, Structural)]
pub enum McpStringFormat {
    Date,
    DateTime,
}

/// The JSON Schema `format` keyword value of a string format.
pub open spec fn format_name(f: McpStringFormat) -> Seq<char> {
    match f {
        McpStringFormat::Date => "date"@,
        McpStringFormat::DateTime => "date-time"@,
    }
}

impl McpStringFormat {
    /// Returns the JSON Schema string format keyword value.
    pub fn as_str(self) -> (r: &'static str)
        ensures
            r@ == format_name(self),
    {
        match self {
            McpStringFormat::Date => "date",
            McpStringFormat::DateTime => "date-time",
        }
    }
}

/// JSON number used by numeric JSON Schema keywords.
#[derive(Debug)]
pub struct McpSchemaNumber(pub JsonNumber);

impl McpSchemaNumber {
    /// A non-negative integer.
    pub fn from_u64(value: u64) -> (r: Self)
        ensures
            r.0@ == crate::json::NumberModel::PosInt(value),
    {
        McpSchemaNumber(JsonNumber::PosInt(value))
    }

    /// A signed integer: non-negative values are stored as non-negative
    /// integers, negative ones as negative integers.
    pub fn from_i64(value: i64) -> (r: Self)
        ensures
            r.0@ == int_number(value as int),
    {
        if value < 0 {
            McpSchemaNumber(JsonNumber::NegInt(value))
        } else {
            McpSchemaNumber(JsonNumber::PosInt(value as u64))
        }
    }

    /// Converts this number into a JSON value.
    pub fn into_value(self) -> (r: JsonValue)
        ensures
            r@ == Json::Number(self.0@),
    {
        JsonValue::Number(self.0)
    }
}

/// The model of an integer as a JSON number.
pub open spec fn int_number(v: int) -> crate::json::NumberModel {
    if v < 0 {
        crate::json::NumberModel::NegInt(v as i64)
    } else {
        crate::json::NumberModel::PosInt(v as u64)
    }
}

/// Value accepted by the JSON Schema `additionalProperties` keyword.
#[derive(Debug)]
pub enum McpAdditionalProperties {
    /// Whether additional properties are allowed.
    Allowed(bool),
    /// Schema applied to additional property values.
    Schema(McpSchema),
}

/// The keyword value of an `additionalProperties` setting.
pub open spec fn additional_value(a: McpAdditionalProperties) -> Json {
    match a {
        McpAdditionalProperties::Allowed(b) => Json::Bool(b),
        McpAdditionalProperties::Schema(s) => s@,
    }
}

/// Typed JSON Schema value used by generated MCP tool metadata.
#[derive(Debug)]
pub struct McpSchema(JsonValue);

impl View for McpSchema {
    type V = Json;

    closed spec fn view(&self) -> Json {
        self.0@
    }
}

/// Schema properties: (name, schema) pairs; a later pair for the same name
/// replaces an earlier one.
pub type McpSchemaProperties = Vec<(String, McpSchema)>;

/// The schema with keyword `k` set to `v`, when it is an object schema;
/// boolean and other non-object schemas are unchanged.
pub open spec fn with_keyword(s: Json, k: Seq<char>, v: Json) -> Json {
    match s {
        Json::Object(e) => Json::Object(map_insert(e, k, v)),
        _ => s,
    }
}

/// Keyword setters leave boolean and other non-object schemas unchanged, and
/// on an object schema the keyword reads back as the value set.
pub proof fn lemma_keyword_setters_only_change_object_schemas(s: Json, k: Seq<char>, v: Json)
    ensures
        !(s is Object) ==> with_keyword(s, k, v) == s,
        s matches Json::Object(e) ==> with_keyword(s, k, v) == Json::Object(map_insert(e, k, v))
            && map_get(map_insert(e, k, v), k) == Some(v),
{
    if let Json::Object(e) = s {
        crate::json::lemma_map_insert_get_same(e, k, v);
    }
}

/// The empty object schema `{}`.
pub open spec fn any_schema() -> Json {
    Json::Object(Seq::empty())
}

/// `{ "type": t }`.
pub open spec fn typed_schema(t: McpSchemaType) -> Json {
    Json::Object(seq![("type"@, Json::String(schema_type_name(t)))])
}

/// The models of a list of schemas.
pub open spec fn schema_views(s: Seq<McpSchema>) -> Seq<Json> {
    Seq::new(s.len(), |i: int| s[i]@)
}

/// The object built by storing each (name, schema) pair in order.
pub open spec fn properties_object(
    acc: Seq<(Seq<char>, Json)>,
    props: Seq<(Seq<char>, Json)>,
) -> Seq<(Seq<char>, Json)>
    decreases props.len(),
{
    crate::tool_error::insert_all(acc, props)
}

/// The models of (name, schema) pairs.
pub open spec fn property_views(p: Seq<(String, McpSchema)>) -> Seq<(Seq<char>, Json)> {
    Seq::new(p.len(), |i: int| (p[i].0@, p[i].1@))
}

impl McpSchema {
    pub fn new(schema: JsonValue) -> (r: Self)
        ensures
            r@ == schema@,
    {
        McpSchema(schema)
    }

    /// The unconstrained schema `{}`.
    pub fn any() -> (r: Self)
        ensures
            r@ == any_schema(),
    {
        let m = JsonMap::new();
        proof {
            lemma_object_view(m);
        }
        McpSchema(JsonValue::Object(m))
    }

    /// The schema no value satisfies: `{ "not": {} }`.
    pub fn impossible() -> (r: Self)
        ensures
            r@ == with_keyword(any_schema(), "not"@, any_schema()),
    {
        Self::any().with_not(Self::any())
    }

    /// `{ "type": schema_type }`.
    pub fn typed(schema_type: McpSchemaType) -> (r: Self)
        ensures
            r@ == typed_schema(schema_type),
    {
        let mut object = JsonMap::new();
        object.insert(
            String::from_str("type"),
            JsonValue::String(String::from_str(schema_type.as_str())),
        );
        proof {
            lemma_object_view(object);
            crate::json::lemma_insert_pos_exists(
                Seq::<(Seq<char>, Json)>::empty(),
                "type"@,
            );
            assert(object@ =~= seq![("type"@, Json::String(schema_type_name(schema_type)))]);
        }
        McpSchema(JsonValue::Object(object))
    }

    pub fn null() -> (r: Self)
        ensures
            r@ == typed_schema(McpSchemaType::Null),
    {
        Self::typed(McpSchemaType::Null)
    }

    pub fn boolean() -> (r: Self)
        ensures
            r@ == typed_schema(McpSchemaType::Boolean),
    {
        Self::typed(McpSchemaType::Boolean)
    }

    pub fn integer() -> (r: Self)
        ensures
            r@ == typed_schema(McpSchemaType::Integer),
    {
        Self::typed(McpSchemaType::Integer)
    }

    pub fn number() -> (r: Self)
        ensures
            r@ == typed_schema(McpSchemaType::Number),
    {
        Self::typed(McpSchemaType::Number)
    }

    pub fn string() -> (r: Self)
        ensures
            r@ == typed_schema(McpSchemaType::String),
    {
        Self::typed(McpSchemaType::String)
    }

    /// `{ "type": "array", "items": item_schema }`.
    pub fn array(item_schema: McpSchema) -> (r: Self)
        ensures
            r@ == with_keyword(typed_schema(McpSchemaType::Array), "items"@, item_schema@),
    {
        Self::typed(McpSchemaType::Array).with_items(item_schema)
    }

    pub fn object() -> (r: Self)
        ensures
            r@ == typed_schema(McpSchemaType::Object),
    {
        Self::typed(McpSchemaType::Object)
    }

    /// `{ "anyOf": schemas }`.
    pub fn any_of(schemas: Vec<McpSchema>) -> (r: Self)
        ensures
            r@ == with_keyword(any_schema(), "anyOf"@, Json::Array(schema_views(schemas@))),
    {
        let mut schema = Self::any();
        schema.set_any_of(schemas);
        schema
    }

    /// `{ "oneOf": schemas }`.
    pub fn one_of(schemas: Vec<McpSchema>) -> (r: Self)
        ensures
            r@ == with_keyword(any_schema(), "oneOf"@, Json::Array(schema_views(schemas@))),
    {
        let mut schema = Self::any();
        schema.set_one_of(schemas);
        schema
    }

    pub fn with_description(self, description: &str) -> (r: Self)
        ensures
            r@ == with_keyword(self@, "description"@, Json::String(description@)),
    {
        let mut s = self;
        s.set_description(description);
        s
    }

    pub fn with_extension(self, key: &str, value: JsonValue) -> (r: Self)
        ensures
            r@ == with_keyword(self@, key@, value@),
    {
        let mut s = self;
        s.set_extension(key, value);
        s
    }

    pub fn with_format(self, format: McpStringFormat) -> (r: Self)
        ensures
            r@ == with_keyword(self@, "format"@, Json::String(format_name(format))),
    {
        let mut s = self;
        s.set_format(format);
        s
    }

    pub fn with_minimum(self, minimum: McpSchemaNumber) -> (r: Self)
        ensures
            r@ == with_keyword(self@, "minimum"@, Json::Number(minimum.0@)),
    {
        let mut s = self;
        s.set_minimum(minimum);
        s
    }

    pub fn with_min_items(self, min_items: usize) -> (r: Self)
        ensures
            r@ == with_keyword(
                self@,
                "minItems"@,
                Json::Number(crate::json::NumberModel::PosInt(min_items as u64)),
            ),
    {
        let mut s = self;
        s.set_min_items(min_items);
        s
    }

    pub fn with_max_items(self, max_items: usize) -> (r: Self)
        ensures
            r@ == with_keyword(
                self@,
                "maxItems"@,
                Json::Number(crate::json::NumberModel::PosInt(max_items as u64)),
            ),
    {
        let mut s = self;
        s.set_max_items(max_items);
        s
    }

    pub fn with_unique_items(self, unique_items: bool) -> (r: Self)
        ensures
            r@ == with_keyword(self@, "uniqueItems"@, Json::Bool(unique_items)),
    {
        let mut s = self;
        s.set_unique_items(unique_items);
        s
    }

    pub fn with_default(self, value: JsonValue) -> (r: Self)
        ensures
            r@ == with_keyword(self@, "default"@, value@),
    {
        let mut s = self;
        s.set_default(value);
        s
    }

    pub fn with_const(self, value: JsonValue) -> (r: Self)
        ensures
            r@ == with_keyword(self@, "const"@, value@),
    {
        let mut s = self;
        s.set_const(value);
        s
    }

    pub fn with_enum_values(self, values: Vec<JsonValue>) -> (r: Self)
        ensures
            r@ == with_keyword(self@, "enum"@, Json::Array(json_seq(values@))),
    {
        let mut s = self;
        s.set_enum_values(values);
        s
    }

    pub fn with_items(self, item_schema: McpSchema) -> (r: Self)
        ensures
            r@ == with_keyword(self@, "items"@, item_schema@),
    {
        let mut s = self;
        s.set_items(item_schema);
        s
    }

    pub fn with_prefix_items(self, item_schemas: Vec<McpSchema>) -> (r: Self)
        ensures
            r@ == with_keyword(self@, "prefixItems"@, Json::Array(schema_views(item_schemas@))),
    {
        let mut s = self;
        s.set_prefix_items(item_schemas);
        s
    }

    pub fn with_properties(self, properties: McpSchemaProperties) -> (r: Self)
        ensures
            r@ == with_keyword(
                self@,
                "properties"@,
                Json::Object(properties_object(Seq::empty(), property_views(properties@))),
            ),
    {
        let mut s = self;
        s.set_properties(properties);
        s
    }

    pub fn with_required(self, required: Vec<String>) -> (r: Self)
        ensures
            r@ == with_keyword(
                self@,
                "required"@,
                Json::Array(Seq::new(required@.len(), |i: int| Json::String(required@[i]@))),
            ),
    {
        let mut s = self;
        s.set_required(required);
        s
    }

    pub fn with_additional_properties(self, additional_properties: McpAdditionalProperties) -> (r:
        Self)
        ensures
            r@ == with_keyword(
                self@,
                "additionalProperties"@,
                additional_value(additional_properties),
            ),
    {
        let mut s = self;
        s.set_additional_properties(additional_properties);
        s
    }

    pub fn with_not(self, schema: McpSchema) -> (r: Self)
        ensures
            r@ == with_keyword(self@, "not"@, schema@),
    {
        let mut s = self;
        s.set_not(schema);
        s
    }

    pub fn set_description(&mut self, description: &str)
        ensures
            final(self)@ == with_keyword(old(self)@, "description"@, Json::String(description@)),
    {
        self.set_extension("description", JsonValue::String(copy_str(description)));
    }

    /// Sets keyword `key` on an object schema; other schemas are unchanged.
    pub fn set_extension(&mut self, key: &str, value: JsonValue)
        ensures
            final(self)@ == with_keyword(old(self)@, key@, value@),
    {
        match &mut self.0 {
            JsonValue::Object(object) => {
                proof {
                    lemma_object_view(*object);
                }
                object.insert(copy_str(key), value);
                proof {
                    lemma_object_view(*object);
                }
            },
            _ => {},
        }
    }

    pub fn set_format(&mut self, format: McpStringFormat)
        ensures
            final(self)@ == with_keyword(old(self)@, "format"@, Json::String(format_name(format))),
    {
        self.set_extension("format", JsonValue::String(String::from_str(format.as_str())));
    }

    pub fn set_minimum(&mut self, minimum: McpSchemaNumber)
        ensures
            final(self)@ == with_keyword(old(self)@, "minimum"@, Json::Number(minimum.0@)),
    {
        self.set_extension("minimum", minimum.into_value());
    }

    pub fn set_min_items(&mut self, min_items: usize)
        ensures
            final(self)@ == with_keyword(
                old(self)@,
                "minItems"@,
                Json::Number(crate::json::NumberModel::PosInt(min_items as u64)),
            ),
    {
        self.set_extension("minItems", JsonValue::Number(JsonNumber::PosInt(min_items as u64)));
    }

    pub fn set_max_items(&mut self, max_items: usize)
        ensures
            final(self)@ == with_keyword(
                old(self)@,
                "maxItems"@,
                Json::Number(crate::json::NumberModel::PosInt(max_items as u64)),
            ),
    {
        self.set_extension("maxItems", JsonValue::Number(JsonNumber::PosInt(max_items as u64)));
    }

    pub fn set_unique_items(&mut self, unique_items: bool)
        ensures
            final(self)@ == with_keyword(old(self)@, "uniqueItems"@, Json::Bool(unique_items)),
    {
        self.set_extension("uniqueItems", JsonValue::Bool(unique_items));
    }

    pub fn set_default(&mut self, value: JsonValue)
        ensures
            final(self)@ == with_keyword(old(self)@, "default"@, value@),
    {
        self.set_extension("default", value);
    }

    pub fn set_const(&mut self, value: JsonValue)
        ensures
            final(self)@ == with_keyword(old(self)@, "const"@, value@),
    {
        self.set_extension("const", value);
    }

    pub fn set_enum_values(&mut self, values: Vec<JsonValue>)
        ensures
            final(self)@ == with_keyword(old(self)@, "enum"@, Json::Array(json_seq(values@))),
    {
        proof {
            lemma_array_view(values);
        }
        self.set_extension("enum", JsonValue::Array(values));
    }

    pub fn set_items(&mut self, item_schema: McpSchema)
        ensures
            final(self)@ == with_keyword(old(self)@, "items"@, item_schema@),
    {
        self.set_extension("items", item_schema.into_value());
    }

    pub fn set_prefix_items(&mut self, item_schemas: Vec<McpSchema>)
        ensures
            final(self)@ == with_keyword(
                old(self)@,
                "prefixItems"@,
                Json::Array(schema_views(item_schemas@)),
            ),
    {
        let v = schemas_to_values(item_schemas);
        self.set_extension("prefixItems", v);
    }

    pub fn set_properties(&mut self, properties: McpSchemaProperties)
        ensures
            final(self)@ == with_keyword(
                old(self)@,
                "properties"@,
                Json::Object(properties_object(Seq::empty(), property_views(properties@))),
            ),
    {
        let ghost pv = property_views(properties@);
        let mut object = JsonMap::new();
        let mut rest = properties;
        let ghost n = pv.len();
        let ghost mut i: int = 0;
        assert(pv.subrange(0, n as int) =~= pv);
        assert(property_views(rest@) =~= pv);
        while rest.len() > 0
            invariant
                0 <= i <= n,
                n == pv.len(),
                property_views(rest@) == pv.subrange(i as int, n as int),
                properties_object(Seq::empty(), pv) == properties_object(
                    object@,
                    pv.subrange(i as int, n as int),
                ),
            decreases rest@.len(),
        {
            let ghost before = object@;
            let ghost tail = pv.subrange(i as int, n as int);
            let (name, schema) = rest.remove(0);
            proof {
                assert(tail[0] == (name@, schema@));
                assert(tail.drop_first() =~= pv.subrange(i as int + 1, n as int));
                assert(property_views(rest@) =~= pv.subrange(i as int + 1, n as int));
            }
            object.insert(name, schema.into_value());
            proof {
                i = i + 1;
            }
        }
        proof {
            assert(pv.subrange(i as int, n as int) =~= Seq::<(Seq<char>, Json)>::empty());
            lemma_object_view(object);
        }
        self.set_extension("properties", JsonValue::Object(object));
    }

    pub fn set_required(&mut self, required: Vec<String>)
        ensures
            final(self)@ == with_keyword(
                old(self)@,
                "required"@,
                Json::Array(Seq::new(required@.len(), |i: int| Json::String(required@[i]@))),
            ),
    {
        let n = required.len();
        let mut values: Vec<JsonValue> = Vec::new();
        let mut i: usize = 0;
        while i < n
            invariant
                n == required@.len(),
                i <= n,
                values@.len() == i,
                forall|j: int| 0 <= j < i ==> (#[trigger] values@[j])@ == Json::String(
                    required@[j]@,
                ),
            decreases n - i,
        {
            values.push(JsonValue::String(copy_str(required[i].as_str())));
            i = i + 1;
        }
        proof {
            lemma_array_view(values);
            assert(Seq::new(values@.len(), |j: int| values@[j]@) =~= Seq::new(
                required@.len(),
                |j: int| Json::String(required@[j]@),
            ));
        }
        self.set_extension("required", JsonValue::Array(values));
    }

    pub fn set_additional_properties(&mut self, additional_properties: McpAdditionalProperties)
        ensures
            final(self)@ == with_keyword(
                old(self)@,
                "additionalProperties"@,
                additional_value(additional_properties),
            ),
    {
        let value = match additional_properties {
            McpAdditionalProperties::Allowed(value) => JsonValue::Bool(value),
            McpAdditionalProperties::Schema(schema) => schema.into_value(),
        };
        self.set_extension("additionalProperties", value);
    }

    pub fn set_any_of(&mut self, schemas: Vec<McpSchema>)
        ensures
            final(self)@ == with_keyword(
                old(self)@,
                "anyOf"@,
                Json::Array(schema_views(schemas@)),
            ),
    {
        let v = schemas_to_values(schemas);
        self.set_extension("anyOf", v);
    }

    pub fn set_one_of(&mut self, schemas: Vec<McpSchema>)
        ensures
            final(self)@ == with_keyword(
                old(self)@,
                "oneOf"@,
                Json::Array(schema_views(schemas@)),
            ),
    {
        let v = schemas_to_values(schemas);
        self.set_extension("oneOf", v);
    }

    pub fn set_not(&mut self, schema: McpSchema)
        ensures
            final(self)@ == with_keyword(old(self)@, "not"@, schema@),
    {
        self.set_extension("not", schema.into_value());
    }

    pub fn as_value(&self) -> (r: &JsonValue)
        ensures
            r@ == self@,
    {
        &self.0
    }

    /// The schema's object entries for in-place editing, when it is an object
    /// schema.
    pub fn as_object_mut(&mut self) -> (r: Option<&mut JsonMap>)
        ensures
            match r {
                Some(m) => old(self)@ == Json::Object(m@) && final(self)@ == Json::Object(
                    final(m)@,
                ),
                None => !(old(self)@ is Object) && final(self)@ == old(self)@,
            },
    {
        broadcast use crate::json::lemma_object_view;

        match &mut self.0 {
            JsonValue::Object(m) => Some(m),
            _ => None,
        }
    }

    pub fn into_value(self) -> (r: JsonValue)
        ensures
            r@ == self@,
    {
        self.0
    }

    /// A copy of the schema.
    pub fn copy(&self) -> (r: Self)
        ensures
            r@ == self@,
    {
        McpSchema(self.0.copy())
    }
}

/// The array value holding the given schemas, in order.
pub fn schemas_to_values(schemas: Vec<McpSchema>) -> (r: JsonValue)
    ensures
        r@ == Json::Array(schema_views(schemas@)),
{
    let ghost sv = schema_views(schemas@);
    let mut rest = schemas;
    let mut out: Vec<JsonValue> = Vec::new();
    while rest.len() > 0
        invariant
            json_seq(out@) + schema_views(rest@) == sv,
        decreases rest@.len(),
    {
        let ghost before = json_seq(out@);
        let ghost r0 = schema_views(rest@);
        let s = rest.remove(0);
        out.push(s.into_value());
        assert(json_seq(out@) =~= before.push(s@));
        assert(schema_views(rest@) =~= r0.drop_first());
        assert(json_seq(out@) + schema_views(rest@) =~= before + r0);
    }
    assert(schema_views(rest@) =~= Seq::<Json>::empty());
    assert(json_seq(out@) =~= sv);
    proof {
        lemma_array_view(out);
    }
    JsonValue::Array(out)
}

/// Build an array schema for items of `item_schema`.
pub fn array_schema(item_schema: McpSchema) -> (r: McpSchema)
    ensures
        r@ == with_keyword(typed_schema(McpSchemaType::Array), "items"@, item_schema@),
{
    McpSchema::array(item_schema)
}

/// Build a unique-array schema for items of `item_schema`.
pub fn unique_array_schema(item_schema: McpSchema) -> (r: McpSchema)
    ensures
        r@ == with_keyword(
            with_keyword(typed_schema(McpSchemaType::Array), "items"@, item_schema@),
            "uniqueItems"@,
            Json::Bool(true),
        ),
{
    array_schema(item_schema).with_unique_items(true)
}

/// Build a fixed-length tuple schema.
pub fn tuple_schema(item_schemas: Vec<McpSchema>) -> (r: McpSchema)
    ensures
        r@ == with_keyword(
            with_keyword(
                with_keyword(
                    typed_schema(McpSchemaType::Array),
                    "prefixItems"@,
                    Json::Array(schema_views(item_schemas@)),
                ),
                "minItems"@,
                Json::Number(crate::json::NumberModel::PosInt(item_schemas@.len() as u64)),
            ),
            "maxItems"@,
            Json::Number(crate::json::NumberModel::PosInt(item_schemas@.len() as u64)),
        ),
{
    let len = item_schemas.len();
    McpSchema::typed(McpSchemaType::Array).with_prefix_items(item_schemas).with_min_items(
        len,
    ).with_max_items(len)
}

/// Build an object schema whose string keys all use `value_schema`.
pub fn string_keyed_object_schema(value_schema: McpSchema) -> (r: McpSchema)
    ensures
        r@ == with_keyword(typed_schema(McpSchemaType::Object), "additionalProperties"@, value_schema@),
{
    McpSchema::object().with_additional_properties(McpAdditionalProperties::Schema(value_schema))
}

/// Build a closed object schema from properties and required field names.
pub fn object_schema(properties: McpSchemaProperties, required: Vec<String>) -> (r: McpSchema)
    ensures
        r@ == with_keyword(
            with_keyword(
                with_keyword(
                    typed_schema(McpSchemaType::Object),
                    "properties"@,
                    Json::Object(properties_object(Seq::empty(), property_views(properties@))),
                ),
                "required"@,
                Json::Array(Seq::new(required@.len(), |i: int| Json::String(required@[i]@))),
            ),
            "additionalProperties"@,
            Json::Bool(false),
        ),
{
    McpSchema::object().with_properties(properties).with_required(required).with_additional_properties(
        McpAdditionalProperties::Allowed(false),
    )
}

/// The schema number of an integer in the `i64` range: non-negative values as
/// non-negative integers, negative ones as negative integers.
pub open spec fn signed_schema_number(v: int) -> McpSchemaNumber {
    if v >= 0 {
        McpSchemaNumber(JsonNumber::PosInt(v as u64))
    } else {
        McpSchemaNumber(JsonNumber::NegInt(v as i64))
    }
}

impl From<i8> for McpSchemaNumber {
    fn from(value: i8) -> (r: Self) {
        if value < 0 {
            McpSchemaNumber(JsonNumber::NegInt(value as i64))
        } else {
            McpSchemaNumber(JsonNumber::PosInt(value as u64))
        }
    }
}

impl vstd::std_specs::convert::FromSpecImpl<i8> for McpSchemaNumber {
    open spec fn obeys_from_spec() -> bool {
        true
    }

    open spec fn from_spec(v: i8) -> Self {
        signed_schema_number(v as int)
    }
}

impl From<i16> for McpSchemaNumber {
    fn from(value: i16) -> (r: Self) {
        if value < 0 {
            McpSchemaNumber(JsonNumber::NegInt(value as i64))
        } else {
            McpSchemaNumber(JsonNumber::PosInt(value as u64))
        }
    }
}

impl vstd::std_specs::convert::FromSpecImpl<i16> for McpSchemaNumber {
    open spec fn obeys_from_spec() -> bool {
        true
    }

    open spec fn from_spec(v: i16) -> Self {
        signed_schema_number(v as int)
    }
}

impl From<i32> for McpSchemaNumber {
    fn from(value: i32) -> (r: Self) {
        if value < 0 {
            McpSchemaNumber(JsonNumber::NegInt(value as i64))
        } else {
            McpSchemaNumber(JsonNumber::PosInt(value as u64))
        }
    }
}

impl vstd::std_specs::convert::FromSpecImpl<i32> for McpSchemaNumber {
    open spec fn obeys_from_spec() -> bool {
        true
    }

    open spec fn from_spec(v: i32) -> Self {
        signed_schema_number(v as int)
    }
}

impl From<i64> for McpSchemaNumber {
    fn from(value: i64) -> (r: Self) {
        if value < 0 {
            McpSchemaNumber(JsonNumber::NegInt(value as i64))
        } else {
            McpSchemaNumber(JsonNumber::PosInt(value as u64))
        }
    }
}

impl vstd::std_specs::convert::FromSpecImpl<i64> for McpSchemaNumber {
    open spec fn obeys_from_spec() -> bool {
        true
    }

    open spec fn from_spec(v: i64) -> Self {
        signed_schema_number(v as int)
    }
}

impl From<isize> for McpSchemaNumber {
    fn from(value: isize) -> (r: Self) {
        if value < 0 {
            McpSchemaNumber(JsonNumber::NegInt(value as i64))
        } else {
            McpSchemaNumber(JsonNumber::PosInt(value as u64))
        }
    }
}

impl vstd::std_specs::convert::FromSpecImpl<isize> for McpSchemaNumber {
    open spec fn obeys_from_spec() -> bool {
        true
    }

    open spec fn from_spec(v: isize) -> Self {
        signed_schema_number(v as int)
    }
}

impl From<u8> for McpSchemaNumber {
    fn from(value: u8) -> (r: Self) {
        McpSchemaNumber(JsonNumber::PosInt(value as u64))
    }
}

impl vstd::std_specs::convert::FromSpecImpl<u8> for McpSchemaNumber {
    open spec fn obeys_from_spec() -> bool {
        true
    }

    open spec fn from_spec(v: u8) -> Self {
        McpSchemaNumber(JsonNumber::PosInt(v as u64))
    }
}

impl From<u16> for McpSchemaNumber {
    fn from(value: u16) -> (r: Self) {
        McpSchemaNumber(JsonNumber::PosInt(value as u64))
    }
}

impl vstd::std_specs::convert::FromSpecImpl<u16> for McpSchemaNumber {
    open spec fn obeys_from_spec() -> bool {
        true
    }

    open spec fn from_spec(v: u16) -> Self {
        McpSchemaNumber(JsonNumber::PosInt(v as u64))
    }
}

impl From<u32> for McpSchemaNumber {
    fn from(value: u32) -> (r: Self) {
        McpSchemaNumber(JsonNumber::PosInt(value as u64))
    }
}

impl vstd::std_specs::convert::FromSpecImpl<u32> for McpSchemaNumber {
    open spec fn obeys_from_spec() -> bool {
        true
    }

    open spec fn from_spec(v: u32) -> Self {
        McpSchemaNumber(JsonNumber::PosInt(v as u64))
    }
}

impl From<u64> for McpSchemaNumber {
    fn from(value: u64) -> (r: Self) {
        McpSchemaNumber(JsonNumber::PosInt(value as u64))
    }
}

impl vstd::std_specs::convert::FromSpecImpl<u64> for McpSchemaNumber {
    open spec fn obeys_from_spec() -> bool {
        true
    }

    open spec fn from_spec(v: u64) -> Self {
        McpSchemaNumber(JsonNumber::PosInt(v as u64))
    }
}

impl From<usize> for McpSchemaNumber {
    fn from(value: usize) -> (r: Self) {
        McpSchemaNumber(JsonNumber::PosInt(value as u64))
    }
}

impl vstd::std_specs::convert::FromSpecImpl<usize> for McpSchemaNumber {
    open spec fn obeys_from_spec() -> bool {
        true
    }

    open spec fn from_spec(v: usize) -> Self {
        McpSchemaNumber(JsonNumber::PosInt(v as u64))
    }
}

} // verus!
