//! JSON Schemas and descriptors for component input shapes, and the schema
//! hints reflected from validation metadata.

use crate::json::{
    has_key, is_first_key_index, lemma_array_view, lemma_first_key_index,
    lemma_first_key_index_unique, lemma_map_insert_get, lemma_map_insert_get_same, lemma_object_view, map_get,
    map_insert, Json, JsonMap, JsonNumber, JsonValue, NumberModel,
};
use crate::literal::{
    literal_number, literal_to_bool, literal_to_number_value, literal_to_u64, parse_u64_text,
};
use crate::mcp_input::{
    bound_primitive, primitive_label, McpInput, McpInputShape, McpPrimitiveKind,
    McpRangeBoundKind,
};
use crate::normalize::{allows_null, any_allows_null, value_schema_allows_null};
use crate::tool_error::insert_all;
use crate::schema::{
    any_schema, array_schema, format_name, property_views, properties_object, schema_type_name,
    schema_views,
    typed_schema, unique_array_schema, with_keyword, McpAdditionalProperties, McpSchema,
    McpSchemaType, McpStringFormat,
};
use crate::validation::{
    param_views, rule_json, McpValidationParam, McpValidationRule, ParamModel, RuleModel,
};
use vstd::prelude::*;
use vstd::string::*;

verus! {

// ---------------------------------------------------------------------------
// Schemas for input shapes
// ---------------------------------------------------------------------------
/// The schema of one primitive value.
pub open spec fn primitive_schema(kind: McpPrimitiveKind) -> Json {
    match kind {
        McpPrimitiveKind::Any => any_schema(),
        McpPrimitiveKind::Boolean => typed_schema(McpSchemaType::Boolean),
        McpPrimitiveKind::Integer => typed_schema(McpSchemaType::Integer),
        McpPrimitiveKind::Number => typed_schema(McpSchemaType::Number),
        McpPrimitiveKind::Decimal => with_keyword(
            any_schema(),
            "anyOf"@,
            Json::Array(seq![typed_schema(McpSchemaType::Number), typed_schema(McpSchemaType::String)]),
        ),
        McpPrimitiveKind::String => typed_schema(McpSchemaType::String),
        McpPrimitiveKind::Date => with_keyword(
            typed_schema(McpSchemaType::String),
            "format"@,
            Json::String(format_name(McpStringFormat::Date)),
        ),
        McpPrimitiveKind::DateTime => with_keyword(
            typed_schema(McpSchemaType::String),
            "format"@,
            Json::String(format_name(McpStringFormat::DateTime)),
        ),
    }
}

/// `{ "anyOf": [schema, { "type": "null" }] }`.
pub open spec fn nullable_json(schema: Json) -> Json {
    with_keyword(any_schema(), "anyOf"@, Json::Array(seq![schema, typed_schema(McpSchemaType::Null)]))
}

/// A closed object with nullable `min` and `max` bounds of the given schema.
pub open spec fn range_json(bound: Json) -> Json {
    with_keyword(
        with_keyword(
            typed_schema(McpSchemaType::Object),
            "properties"@,
            Json::Object(
                properties_object(
                    Seq::empty(),
                    seq![("min"@, nullable_json(bound)), ("max"@, nullable_json(bound))],
                ),
            ),
        ),
        "additionalProperties"@,
        Json::Bool(false),
    )
}

/// The schema of an input shape.
pub open spec fn input_schema_json(shape: McpInputShape) -> Json {
    match shape {
        McpInputShape::Unsupported => with_keyword(any_schema(), "not"@, any_schema()),
        McpInputShape::Scalar(k) => primitive_schema(k),
        McpInputShape::List(k) => with_keyword(
            typed_schema(McpSchemaType::Array),
            "items"@,
            primitive_schema(k),
        ),
        McpInputShape::SetOf(k) => with_keyword(
            with_keyword(typed_schema(McpSchemaType::Array), "items"@, primitive_schema(k)),
            "uniqueItems"@,
            Json::Bool(true),
        ),
        McpInputShape::Range(k) => range_json(primitive_schema(bound_primitive(k))),
        McpInputShape::Object => typed_schema(McpSchemaType::Object),
    }
}

/// The schema of one primitive value.
pub fn schema_for_primitive(kind: McpPrimitiveKind) -> (r: McpSchema)
    ensures
        r@ == primitive_schema(kind),
{
    match kind {
        McpPrimitiveKind::Any => McpSchema::any(),
        McpPrimitiveKind::Boolean => McpSchema::boolean(),
        McpPrimitiveKind::Integer => McpSchema::integer(),
        McpPrimitiveKind::Number => McpSchema::number(),
        McpPrimitiveKind::Decimal => {
            let mut branches: Vec<McpSchema> = Vec::new();
            branches.push(McpSchema::number());
            branches.push(McpSchema::string());
            let r = McpSchema::any_of(branches);
            assert(schema_views(branches@) =~= seq![
                typed_schema(McpSchemaType::Number),
                typed_schema(McpSchemaType::String),
            ]);
            r
        },
        McpPrimitiveKind::String => McpSchema::string(),
        McpPrimitiveKind::Date => McpSchema::string().with_format(McpStringFormat::Date),
        McpPrimitiveKind::DateTime => McpSchema::string().with_format(McpStringFormat::DateTime),
    }
}

/// The schema of a range bound.
pub fn schema_for_range_bound(kind: McpRangeBoundKind) -> (r: McpSchema)
    ensures
        r@ == primitive_schema(bound_primitive(kind)),
{
    schema_for_primitive(kind.primitive_kind())
}

/// `schema` or `null`.
pub fn nullable_schema(schema: McpSchema) -> (r: McpSchema)
    ensures
        r@ == nullable_json(schema@),
{
    let ghost s = schema@;
    let mut branches: Vec<McpSchema> = Vec::new();
    branches.push(schema);
    branches.push(McpSchema::null());
    assert(schema_views(branches@) =~= seq![s, typed_schema(McpSchemaType::Null)]);
    McpSchema::any_of(branches)
}

/// Every schema made nullable accepts JSON `null`.
pub proof fn lemma_nullable_allows_null(schema: Json)
    ensures
        allows_null(nullable_json(schema)),
{
    let null_schema = typed_schema(McpSchemaType::Null);
    let branches = seq![schema, null_schema];
    let e = map_insert(Seq::empty(), "anyOf"@, Json::Array(branches));
    lemma_map_insert_get_same(Seq::empty(), "anyOf"@, Json::Array(branches));
    let t = seq![("type"@, Json::String(schema_type_name(McpSchemaType::Null)))];
    assert(map_get(t, "type"@) == Some(Json::String("null"@))) by {
        assert(t[0].0 == "type"@);
        assert(has_key(t, "type"@));
        lemma_first_key_index(t, "type"@);
        assert(is_first_key_index(t, "type"@, 0));
        lemma_first_key_index_unique(t, "type"@, 0);
    }
    assert(allows_null(null_schema));
    assert(any_allows_null(branches, 1));
    assert(any_allows_null(branches, 0));
}

/// A closed object with nullable `min` and `max` bounds.
pub fn range_schema(bound_schema: McpSchema) -> (r: McpSchema)
    ensures
        r@ == range_json(bound_schema@),
{
    let ghost b = bound_schema@;
    let min_schema = nullable_schema(bound_schema.copy());
    let max_schema = nullable_schema(bound_schema);
    let mut properties: Vec<(String, McpSchema)> = Vec::new();
    properties.push((String::from_str("min"), min_schema));
    properties.push((String::from_str("max"), max_schema));
    assert(property_views(properties@) =~= seq![
        ("min"@, nullable_json(b)),
        ("max"@, nullable_json(b)),
    ]);
    McpSchema::object().with_properties(properties).with_additional_properties(
        McpAdditionalProperties::Allowed(false),
    )
}

/// The JSON Schema of an input shape.
pub fn schema_for_input(input: McpInput) -> (r: McpSchema)
    ensures
        r@ == input_schema_json(input.shape()),
{
    match input.input_shape() {
        McpInputShape::Unsupported => McpSchema::impossible(),
        McpInputShape::Scalar(kind) => schema_for_primitive(kind),
        McpInputShape::List(kind) => array_schema(schema_for_primitive(kind)),
        McpInputShape::SetOf(kind) => unique_array_schema(schema_for_primitive(kind)),
        McpInputShape::Range(kind) => range_schema(schema_for_range_bound(kind)),
        McpInputShape::Object => McpSchema::object(),
    }
}

/// Whether the schema accepts JSON `null`.
pub fn schema_allows_null(schema: &McpSchema) -> (r: bool)
    ensures
        r == allows_null(schema@),
{
    value_schema_allows_null(schema.as_value())
}

// ---------------------------------------------------------------------------
// Descriptors
// ---------------------------------------------------------------------------
/// `{ "supported": s, "shape": name }` with one more optional entry.
pub open spec fn descriptor_json(
    supported: bool,
    shape: Seq<char>,
    extra: Option<(Seq<char>, Seq<char>)>,
) -> Json {
    let e = map_insert(
        map_insert(Seq::empty(), "supported"@, Json::Bool(supported)),
        "shape"@,
        Json::String(shape),
    );
    Json::Object(
        match extra {
            Some(kv) => map_insert(e, kv.0, Json::String(kv.1)),
            None => e,
        },
    )
}

/// The compact descriptor of an input shape.
pub open spec fn input_descriptor_json(shape: McpInputShape) -> Json {
    match shape {
        McpInputShape::Unsupported => descriptor_json(false, "unsupported"@, None),
        McpInputShape::Scalar(k) => descriptor_json(
            true,
            "scalar"@,
            Some(("primitive"@, primitive_label(k))),
        ),
        McpInputShape::List(k) => descriptor_json(true, "list"@, Some(("items"@, primitive_label(k)))),
        McpInputShape::SetOf(k) => descriptor_json(true, "set"@, Some(("items"@, primitive_label(k)))),
        McpInputShape::Range(k) => descriptor_json(
            true,
            "range"@,
            Some(("bound"@, primitive_label(bound_primitive(k)))),
        ),
        McpInputShape::Object => descriptor_json(true, "object"@, None),
    }
}

fn descriptor(supported: bool, shape: &str, extra_key: Option<&str>, extra_value: &str) -> (r:
    JsonValue)
    ensures
        r@ == descriptor_json(
            supported,
            shape@,
            match extra_key {
                Some(k) => Some((k@, extra_value@)),
                None => None,
            },
        ),
{
    let mut object = JsonMap::new();
    object.insert(String::from_str("supported"), JsonValue::Bool(supported));
    object.insert(String::from_str("shape"), JsonValue::String(String::from_str(shape)));
    if let Some(key) = extra_key {
        object.insert(String::from_str(key), JsonValue::String(String::from_str(extra_value)));
    }
    proof {
        lemma_object_view(object);
    }
    JsonValue::Object(object)
}

/// A compact JSON descriptor of an input shape, for clients that display the
/// intended control without reading the full schema.
pub fn mcp_input_descriptor_value(input: McpInput) -> (r: JsonValue)
    ensures
        r@ == input_descriptor_json(input.shape()),
{
    match input.input_shape() {
        McpInputShape::Unsupported => descriptor(false, "unsupported", None, ""),
        McpInputShape::Scalar(kind) => descriptor(true, "scalar", Some("primitive"), kind.as_str()),
        McpInputShape::List(kind) => descriptor(true, "list", Some("items"), kind.as_str()),
        McpInputShape::SetOf(kind) => descriptor(true, "set", Some("items"), kind.as_str()),
        McpInputShape::Range(kind) => descriptor(true, "range", Some("bound"), kind.as_str()),
        McpInputShape::Object => descriptor(true, "object", None, ""),
    }
}

// ---------------------------------------------------------------------------
// Validation hints
// ---------------------------------------------------------------------------
/// The `type` keyword of an object schema, when it is a string.
pub open spec fn object_type(v: Json) -> Option<Seq<char>> {
    match v {
        Json::Object(o) => match map_get(o, "type"@) {
            Some(Json::String(s)) => Some(s),
            _ => None,
        },
        _ => None,
    }
}

/// The first `type` string among object schemas in `items`.
pub open spec fn first_object_type(items: Seq<Json>) -> Option<Seq<char>>
    decreases items.len(),
{
    if items.len() == 0 {
        None
    } else {
        match object_type(items[0]) {
            Some(s) => Some(s),
            None => first_object_type(items.drop_first()),
        }
    }
}

/// The primary type of a schema object: its `type` string, else the first
/// `type` string among its `anyOf` branches.
pub open spec fn primary_type(e: Seq<(Seq<char>, Json)>) -> Option<Seq<char>> {
    match map_get(e, "type"@) {
        Some(Json::String(s)) => Some(s),
        _ => match map_get(e, "anyOf"@) {
            Some(Json::Array(items)) => first_object_type(items),
            _ => None,
        },
    }
}

/// The first parameter with the given name.
pub open spec fn first_param(params: Seq<ParamModel>, name: Seq<char>) -> Option<ParamModel>
    decreases params.len(),
{
    if params.len() == 0 {
        None
    } else if params[0].name == name {
        Some(params[0])
    } else {
        first_param(params.drop_first(), name)
    }
}

/// The literal of the first parameter with the given name.
pub open spec fn param_literal(params: Seq<ParamModel>, name: Seq<char>) -> Option<Seq<char>> {
    match first_param(params, name) {
        Some(p) => p.literal,
        None => None,
    }
}

/// `entries` with `k` set to the value, when there is one.
pub open spec fn insert_some(e: Seq<(Seq<char>, Json)>, k: Seq<char>, v: Option<Json>) -> Seq<
    (Seq<char>, Json),
> {
    match v {
        Some(x) => map_insert(e, k, x),
        None => e,
    }
}

/// The `u64` literal of a parameter, as a JSON number.
pub open spec fn param_count(params: Seq<ParamModel>, name: Seq<char>) -> Option<Json> {
    match param_literal(params, name) {
        Some(l) => match parse_u64_text(l) {
            Some(n) => Some(Json::Number(NumberModel::PosInt(n))),
            None => None,
        },
        None => None,
    }
}

/// The number literal of a parameter.
pub open spec fn param_number(params: Seq<ParamModel>, name: Seq<char>) -> Option<Json> {
    match param_literal(params, name) {
        Some(l) => literal_number(l),
        None => None,
    }
}

/// Length bounds: `min`/`max` literals as `minLength`/`maxLength` on strings
/// and `minItems`/`maxItems` on arrays.
pub open spec fn len_hint(e: Seq<(Seq<char>, Json)>, params: Seq<ParamModel>) -> Seq<
    (Seq<char>, Json),
> {
    match primary_type(e) {
        Some(t) => if t == "string"@ {
            insert_some(
                insert_some(e, "minLength"@, param_count(params, "min"@)),
                "maxLength"@,
                param_count(params, "max"@),
            )
        } else if t == "array"@ {
            insert_some(
                insert_some(e, "minItems"@, param_count(params, "min"@)),
                "maxItems"@,
                param_count(params, "max"@),
            )
        } else {
            e
        },
        None => e,
    }
}

/// Range bounds on integer and number schemas: `min`/`max` literals as
/// `minimum`/`maximum`, or as the exclusive keywords when `exclusive_min` /
/// `exclusive_max` is the literal `true`.
pub open spec fn range_hint(e: Seq<(Seq<char>, Json)>, params: Seq<ParamModel>) -> Seq<
    (Seq<char>, Json),
> {
    let t = primary_type(e);
    if t == Some("integer"@) || t == Some("number"@) {
        let exclusive_min = param_literal(params, "exclusive_min"@) == Some("true"@);
        let exclusive_max = param_literal(params, "exclusive_max"@) == Some("true"@);
        let min_key = if exclusive_min {
            "exclusiveMinimum"@
        } else {
            "minimum"@
        };
        let max_key = if exclusive_max {
            "exclusiveMaximum"@
        } else {
            "maximum"@
        };
        insert_some(
            insert_some(e, min_key, param_number(params, "min"@)),
            max_key,
            param_number(params, "max"@),
        )
    } else {
        e
    }
}

/// `entries` with `k` set to `v` unless `k` is already present.
pub open spec fn insert_absent(e: Seq<(Seq<char>, Json)>, k: Seq<char>, v: Json) -> Seq<
    (Seq<char>, Json),
> {
    if has_key(e, k) {
        e
    } else {
        map_insert(e, k, v)
    }
}

/// Non-empty values: `minLength` 1 on strings and `minItems` 1 on arrays,
/// unless a bound is already there.
pub open spec fn non_empty_hint(e: Seq<(Seq<char>, Json)>) -> Seq<(Seq<char>, Json)> {
    match primary_type(e) {
        Some(t) => if t == "string"@ {
            insert_absent(e, "minLength"@, Json::Number(NumberModel::PosInt(1)))
        } else if t == "array"@ {
            insert_absent(e, "minItems"@, Json::Number(NumberModel::PosInt(1)))
        } else {
            e
        },
        None => e,
    }
}

/// The hint one rule contributes.
pub open spec fn rule_hint(e: Seq<(Seq<char>, Json)>, r: RuleModel) -> Seq<(Seq<char>, Json)> {
    if r.validator == "LenValidation"@ {
        len_hint(e, r.params)
    } else if r.validator == "RangeValidation"@ {
        range_hint(e, r.params)
    } else if r.validator == "NonEmptyValidation"@ {
        non_empty_hint(e)
    } else {
        e
    }
}

/// The hints of all rules, applied in order.
pub open spec fn rules_hints(e: Seq<(Seq<char>, Json)>, rules: Seq<RuleModel>) -> Seq<
    (Seq<char>, Json),
>
    decreases rules.len(),
{
    if rules.len() == 0 {
        e
    } else {
        rules_hints(rule_hint(e, rules[0]), rules.drop_first())
    }
}

/// The models of a list of rules.
pub open spec fn rule_views(rules: Seq<McpValidationRule>) -> Seq<RuleModel> {
    Seq::new(rules.len(), |i: int| rules[i]@)
}

/// The JSON list of rule descriptions.
pub open spec fn rules_json(rules: Seq<RuleModel>) -> Json {
    Json::Array(Seq::new(rules.len(), |i: int| rule_json(rules[i])))
}

/// The schema object after attaching the rule list under `key` (when there are
/// rules) and reflecting their hints.
pub open spec fn with_validation_metadata(
    e: Seq<(Seq<char>, Json)>,
    key: Seq<char>,
    rules: Seq<RuleModel>,
) -> Seq<(Seq<char>, Json)> {
    let attached = if rules.len() > 0 {
        map_insert(e, key, rules_json(rules))
    } else {
        e
    };
    rules_hints(attached, rules)
}

fn schema_type_from_value(value: &JsonValue) -> (r: Option<&str>)
    ensures
        match r {
            Some(s) => object_type(value@) == Some(s@),
            None => object_type(value@) is None,
        },
{
    match value {
        JsonValue::Object(object) => {
            proof {
                lemma_object_view(*object);
            }
            match object.get("type") {
                Some(t) => t.as_str(),
                None => None,
            }
        },
        _ => None,
    }
}

fn primary_schema_type(object: &JsonMap) -> (r: Option<&str>)
    ensures
        match r {
            Some(s) => primary_type(object@) == Some(s@),
            None => primary_type(object@) is None,
        },
{
    if let Some(t) = object.get("type") {
        if let Some(s) = t.as_str() {
            return Some(s);
        }
    }
    match object.get("anyOf") {
        Some(any_of) => match any_of.as_array() {
            Some(items) => {
                let ghost views = Seq::new(items@.len(), |i: int| items@[i]@);
                let n = items.len();
                let mut i: usize = 0;
                assert(views.subrange(0, n as int) =~= views);
                assert(primary_type(object@) == first_object_type(views));
                while i < n
                    invariant
                        primary_type(object@) == first_object_type(views),
                        n == items@.len(),
                        i <= n,
                        views == Seq::new(items@.len(), |k: int| items@[k]@),
                        first_object_type(views) == first_object_type(
                            views.subrange(i as int, n as int),
                        ),
                    decreases n - i,
                {
                    let ghost rest = views.subrange(i as int, n as int);
                    assert(rest[0] == items@[i as int]@);
                    assert(rest.drop_first() =~= views.subrange(i as int + 1, n as int));
                    if let Some(s) = schema_type_from_value(&items[i]) {
                        return Some(s);
                    }
                    i = i + 1;
                }
                assert(views.subrange(n as int, n as int) =~= Seq::<Json>::empty());
                None
            },
            None => None,
        },
        None => None,
    }
}

/// The first parameter with the given name.
fn find_param(params: &[McpValidationParam], name: &str) -> (r: Option<McpValidationParam>)
    ensures
        match r {
            Some(p) => first_param(param_views(params@), name@) == Some(p@),
            None => first_param(param_views(params@), name@) is None,
        },
{
    let ghost pv = param_views(params@);
    let n = params.len();
    let mut i: usize = 0;
    assert(pv.subrange(0, n as int) =~= pv);
    while i < n
        invariant
            n == params@.len(),
            pv == param_views(params@),
            i <= n,
            first_param(pv, name@) == first_param(pv.subrange(i as int, n as int), name@),
        decreases n - i,
    {
        let ghost rest = pv.subrange(i as int, n as int);
        assert(rest[0] == params@[i as int]@);
        assert(rest.drop_first() =~= pv.subrange(i as int + 1, n as int));
        if crate::json::str_eq(params[i].name(), name) {
            return Some(params[i]);
        }
        i = i + 1;
    }
    assert(pv.subrange(n as int, n as int) =~= Seq::<ParamModel>::empty());
    None
}

/// The literal of the first parameter with the given name.
fn find_literal(params: &[McpValidationParam], name: &str) -> (r: Option<&'static str>)
    ensures
        match r {
            Some(l) => param_literal(param_views(params@), name@) == Some(l@),
            None => param_literal(param_views(params@), name@) is None,
        },
{
    match find_param(params, name) {
        Some(p) => p.literal_value(),
        None => None,
    }
}

fn find_count(params: &[McpValidationParam], name: &str) -> (r: Option<u64>)
    ensures
        match r {
            Some(n) => param_count(param_views(params@), name@) == Some(
                Json::Number(NumberModel::PosInt(n)),
            ),
            None => param_count(param_views(params@), name@) is None,
        },
{
    match find_literal(params, name) {
        Some(l) => literal_to_u64(l),
        None => None,
    }
}

fn find_number(params: &[McpValidationParam], name: &str) -> (r: Option<JsonValue>)
    ensures
        match r {
            Some(v) => param_number(param_views(params@), name@) == Some(v@),
            None => param_number(param_views(params@), name@) is None,
        },
{
    match find_literal(params, name) {
        Some(l) => literal_to_number_value(l),
        None => None,
    }
}

fn find_flag(params: &[McpValidationParam], name: &str) -> (r: bool)
    ensures
        r == (param_literal(param_views(params@), name@) == Some("true"@)),
{
    proof {
        reveal_strlit("true");
        reveal_strlit("false");
    }
    match find_literal(params, name) {
        Some(l) => match literal_to_bool(l) {
            Some(b) => b,
            None => false,
        },
        None => false,
    }
}

fn insert_count(object: &mut JsonMap, key: &str, value: Option<u64>)
    ensures
        final(object)@ == insert_some(
            old(object)@,
            key@,
            match value {
                Some(n) => Some(Json::Number(NumberModel::PosInt(n))),
                None => None,
            },
        ),
{
    if let Some(n) = value {
        object.insert(String::from_str(key), JsonValue::Number(JsonNumber::PosInt(n)));
    }
}

fn insert_value(object: &mut JsonMap, key: &str, value: Option<JsonValue>)
    ensures
        final(object)@ == insert_some(
            old(object)@,
            key@,
            match value {
                Some(v) => Some(v@),
                None => None,
            },
        ),
{
    if let Some(v) = value {
        object.insert(String::from_str(key), v);
    }
}

fn apply_len_validation_schema_hint(rule: McpValidationRule, object: &mut JsonMap)
    ensures
        final(object)@ == len_hint(old(object)@, rule@.params),
{
    proof {
        reveal_strlit("string");
        reveal_strlit("array");
    }
    let params = rule.params();
    let (min_keyword, max_keyword) = match primary_schema_type(object) {
        Some(t) => {
            if crate::json::str_eq(t, "string") {
                ("minLength", "maxLength")
            } else if crate::json::str_eq(t, "array") {
                ("minItems", "maxItems")
            } else {
                return;
            }
        },
        None => {
            return;
        },
    };
    let min = find_count(params, "min");
    let max = find_count(params, "max");
    insert_count(object, min_keyword, min);
    insert_count(object, max_keyword, max);
}

fn apply_range_validation_schema_hint(rule: McpValidationRule, object: &mut JsonMap)
    ensures
        final(object)@ == range_hint(old(object)@, rule@.params),
{
    proof {
        reveal_strlit("integer");
        reveal_strlit("number");
    }
    let numeric = match primary_schema_type(object) {
        Some(t) => crate::json::str_eq(t, "integer") || crate::json::str_eq(t, "number"),
        None => false,
    };
    if !numeric {
        return;
    }
    let params = rule.params();
    let exclusive_min = find_flag(params, "exclusive_min");
    let exclusive_max = find_flag(params, "exclusive_max");
    let min = find_number(params, "min");
    let max = find_number(params, "max");
    let min_keyword = if exclusive_min {
        "exclusiveMinimum"
    } else {
        "minimum"
    };
    let max_keyword = if exclusive_max {
        "exclusiveMaximum"
    } else {
        "maximum"
    };
    insert_value(object, min_keyword, min);
    insert_value(object, max_keyword, max);
}

fn apply_non_empty_validation_schema_hint(object: &mut JsonMap)
    ensures
        final(object)@ == non_empty_hint(old(object)@),
{
    proof {
        reveal_strlit("string");
        reveal_strlit("array");
    }
    let keyword = match primary_schema_type(object) {
        Some(t) => {
            if crate::json::str_eq(t, "string") {
                "minLength"
            } else if crate::json::str_eq(t, "array") {
                "minItems"
            } else {
                return;
            }
        },
        None => {
            return;
        },
    };
    if !object.contains_key(keyword) {
        object.insert(String::from_str(keyword), JsonValue::Number(JsonNumber::PosInt(1)));
    }
}

/// Reflect the literal parameters of length, range and non-empty validators
/// into JSON Schema keywords of the object.
pub fn apply_validation_schema_hints(object: &mut JsonMap, rules: &[McpValidationRule])
    ensures
        final(object)@ == rules_hints(old(object)@, rule_views(rules@)),
{
    proof {
        reveal_strlit("LenValidation");
        reveal_strlit("RangeValidation");
        reveal_strlit("NonEmptyValidation");
    }
    let ghost rv = rule_views(rules@);
    let ghost start = object@;
    let n = rules.len();
    let mut i: usize = 0;
    assert(rv.subrange(0, n as int) =~= rv);
    while i < n
        invariant
            n == rules@.len(),
            rv == rule_views(rules@),
            i <= n,
            rules_hints(start, rv) == rules_hints(object@, rv.subrange(i as int, n as int)),
        decreases n - i,
    {
        let ghost rest = rv.subrange(i as int, n as int);
        assert(rest[0] == rules@[i as int]@);
        assert(rest.drop_first() =~= rv.subrange(i as int + 1, n as int));
        let rule = rules[i];
        let validator = rule.validator();
        if crate::json::str_eq(validator, "LenValidation") {
            apply_len_validation_schema_hint(rule, object);
        } else if crate::json::str_eq(validator, "RangeValidation") {
            apply_range_validation_schema_hint(rule, object);
        } else if crate::json::str_eq(validator, "NonEmptyValidation") {
            apply_non_empty_validation_schema_hint(object);
        }
        i = i + 1;
    }
    assert(rv.subrange(n as int, n as int) =~= Seq::<RuleModel>::empty());
}

/// The JSON list describing the given rules.
pub fn rules_to_value(rules: &[McpValidationRule]) -> (r: JsonValue)
    ensures
        r@ == rules_json(rule_views(rules@)),
{
    let n = rules.len();
    let mut values: Vec<JsonValue> = Vec::new();
    let mut i: usize = 0;
    while i < n
        invariant
            n == rules@.len(),
            i <= n,
            values@.len() == i,
            forall|j: int| 0 <= j < i ==> (#[trigger] values@[j])@ == rule_json(rules@[j]@),
        decreases n - i,
    {
        values.push(rules[i].to_value());
        i = i + 1;
    }
    proof {
        lemma_array_view(values);
        assert(Seq::new(values@.len(), |j: int| values@[j]@) =~= Seq::new(
            rule_views(rules@).len(),
            |j: int| rule_json(rule_views(rules@)[j]),
        ));
    }
    JsonValue::Array(values)
}

/// Attach the rule descriptions under `extension_key` (when there are rules)
/// and reflect their supported literal parameters as JSON Schema keywords.
pub fn apply_validation_schema_metadata(
    object: &mut JsonMap,
    extension_key: &str,
    rules: &[McpValidationRule],
)
    ensures
        final(object)@ == with_validation_metadata(old(object)@, extension_key@, rule_views(rules@)),
{
    if rules.len() > 0 {
        object.insert(String::from_str(extension_key), rules_to_value(rules));
    }
    apply_validation_schema_hints(object, rules);
}


/// Validation hints touch only string, array, integer and number schemas: an
/// object whose primary type is none of these (or that has none) comes back
/// unchanged, whatever the rules.
pub proof fn lemma_hints_leave_other_types_unchanged(
    e: Seq<(Seq<char>, Json)>,
    rules: Seq<RuleModel>,
)
    requires
        !(primary_type(e) == Some("string"@) || primary_type(e) == Some("array"@) || primary_type(
            e,
        ) == Some("integer"@) || primary_type(e) == Some("number"@)),
    ensures
        rules_hints(e, rules) == e,
    decreases rules.len(),
{
    if rules.len() > 0 {
        assert(rule_hint(e, rules[0]) == e);
        lemma_hints_leave_other_types_unchanged(e, rules.drop_first());
    }
}


/// The range schema is a closed object schema: `type` is `object`,
/// `additionalProperties` is `false`, and `properties` holds exactly `min`
/// and `max`, each the nullable form of the bound schema; no other keyword
/// and no other property is present.
pub proof fn lemma_range_schema_layout(bound: Json, k: Seq<char>)
    ensures
        range_json(bound) matches Json::Object(e) && {
            &&& map_get(e, "type"@) == Some(Json::String("object"@))
            &&& map_get(e, "additionalProperties"@) == Some(Json::Bool(false))
            &&& map_get(e, "properties"@) matches Some(Json::Object(p)) && {
                &&& map_get(p, "min"@) == Some(nullable_json(bound))
                &&& map_get(p, "max"@) == Some(nullable_json(bound))
                &&& (k != "min"@ && k != "max"@) ==> map_get(p, k) is None
            }
            &&& (k != "type"@ && k != "additionalProperties"@ && k != "properties"@) ==> map_get(
                e,
                k,
            ) is None
        },
{
    reveal_strlit("type");
    reveal_strlit("object");
    reveal_strlit("properties");
    reveal_strlit("additionalProperties");
    reveal_strlit("min");
    reveal_strlit("max");
    assert("min"@[1] != "max"@[1]);
    assert("type"@.len() == 4 && "properties"@.len() == 10 && "additionalProperties"@.len() == 20);
    let n = nullable_json(bound);
    let pairs = seq![("min"@, n), ("max"@, n)];
    let empty = Seq::<(Seq<char>, Json)>::empty();
    let p1 = map_insert(empty, "min"@, n);
    let p = map_insert(p1, "max"@, n);
    assert(pairs.drop_first() =~= seq![("max"@, n)]);
    assert(seq![("max"@, n)].drop_first() =~= Seq::<(Seq<char>, Json)>::empty());
    assert(insert_all(empty, pairs) == insert_all(p1, seq![("max"@, n)]));
    assert(insert_all(p1, seq![("max"@, n)]) == insert_all(p, empty));
    assert(properties_object(empty, pairs) == p);
    let t = seq![("type"@, Json::String("object"@))];
    let e1 = map_insert(t, "properties"@, Json::Object(p));
    let e = map_insert(e1, "additionalProperties"@, Json::Bool(false));
    assert(range_json(bound) == Json::Object(e));
    assert(map_get(empty, k) is None);
    assert(map_get(empty, "max"@) is None);
    assert(map_get(empty, "min"@) is None);
    lemma_map_insert_get(empty, "min"@, n, "min"@);
    lemma_map_insert_get(empty, "min"@, n, "max"@);
    lemma_map_insert_get(empty, "min"@, n, k);
    lemma_map_insert_get(p1, "max"@, n, "min"@);
    lemma_map_insert_get(p1, "max"@, n, "max"@);
    lemma_map_insert_get(p1, "max"@, n, k);
    assert(is_first_key_index(t, "type"@, 0));
    lemma_first_key_index_unique(t, "type"@, 0);
    assert(!has_key(t, "properties"@) && !has_key(t, "additionalProperties"@));
    assert(k != "type"@ ==> !has_key(t, k));
    lemma_map_insert_get(t, "properties"@, Json::Object(p), "type"@);
    lemma_map_insert_get(t, "properties"@, Json::Object(p), "properties"@);
    lemma_map_insert_get(t, "properties"@, Json::Object(p), "additionalProperties"@);
    lemma_map_insert_get(t, "properties"@, Json::Object(p), k);
    lemma_map_insert_get(e1, "additionalProperties"@, Json::Bool(false), "type"@);
    lemma_map_insert_get(e1, "additionalProperties"@, Json::Bool(false), "properties"@);
    lemma_map_insert_get(e1, "additionalProperties"@, Json::Bool(false), "additionalProperties"@);
    lemma_map_insert_get(e1, "additionalProperties"@, Json::Bool(false), k);
}


/// The non-empty hint only ever adds a bound of 1 where none exists: on a
/// string schema without `minLength` it sets `minLength` to 1, on an array
/// schema without `minItems` it sets `minItems` to 1, and every other key,
/// including a bound already present, keeps its value.
pub proof fn lemma_non_empty_hint_only_adds_missing_bounds(
    e: Seq<(Seq<char>, Json)>,
    r: RuleModel,
    k: Seq<char>,
)
    requires
        r.validator == "NonEmptyValidation"@,
    ensures
        ({
            let out = rules_hints(e, seq![r]);
            &&& map_get(out, "minLength"@) == (if map_get(e, "minLength"@) is None && primary_type(e)
                == Some("string"@) {
                Some(Json::Number(NumberModel::PosInt(1)))
            } else {
                map_get(e, "minLength"@)
            })
            &&& map_get(out, "minItems"@) == (if map_get(e, "minItems"@) is None && primary_type(e)
                == Some("array"@) {
                Some(Json::Number(NumberModel::PosInt(1)))
            } else {
                map_get(e, "minItems"@)
            })
            &&& (k != "minLength"@ && k != "minItems"@) ==> map_get(out, k) == map_get(e, k)
        }),
{
    reveal_strlit("NonEmptyValidation");
    reveal_strlit("LenValidation");
    reveal_strlit("RangeValidation");
    reveal_strlit("minLength");
    reveal_strlit("minItems");
    reveal_strlit("string");
    reveal_strlit("array");
    assert("NonEmptyValidation"@.len() != "LenValidation"@.len());
    assert("NonEmptyValidation"@.len() != "RangeValidation"@.len());
    assert("minLength"@.len() != "minItems"@.len());
    assert("string"@.len() != "array"@.len());
    assert(seq![r].drop_first() =~= Seq::<RuleModel>::empty());
    assert(seq![r][0] == r);
    assert(rule_hint(e, r) == non_empty_hint(e));
    assert(rules_hints(non_empty_hint(e), Seq::<RuleModel>::empty()) == non_empty_hint(e));
    assert(rules_hints(e, seq![r]) == non_empty_hint(e));
    let one = Json::Number(NumberModel::PosInt(1));
    lemma_map_insert_get(e, "minLength"@, one, "minLength"@);
    lemma_map_insert_get(e, "minLength"@, one, "minItems"@);
    lemma_map_insert_get(e, "minLength"@, one, k);
    lemma_map_insert_get(e, "minItems"@, one, "minLength"@);
    lemma_map_insert_get(e, "minItems"@, one, "minItems"@);
    lemma_map_insert_get(e, "minItems"@, one, k);
}


proof fn lemma_single_rule_hint(e: Seq<(Seq<char>, Json)>, r: RuleModel)
    ensures
        rules_hints(e, seq![r]) == rule_hint(e, r),
{
    assert(seq![r].drop_first() =~= Seq::<RuleModel>::empty());
    assert(seq![r][0] == r);
    assert(rules_hints(rule_hint(e, r), Seq::<RuleModel>::empty()) == rule_hint(e, r));
}

/// What a length rule's `min`/`max` literal becomes: the `u64` it reads as.
pub open spec fn count_of(params: Seq<ParamModel>, name: Seq<char>) -> Option<u64> {
    match param_literal(params, name) {
        Some(l) => parse_u64_text(l),
        None => None,
    }
}

/// A length rule bounds strings by `minLength`/`maxLength` and arrays by
/// `minItems`/`maxItems`, each set to the `u64` its `min`/`max` literal reads
/// as and left as it was when there is no such literal; every other key is
/// kept, and a schema of another type is unchanged.
pub proof fn lemma_len_hint_bounds(e: Seq<(Seq<char>, Json)>, r: RuleModel, k: Seq<char>)
    requires
        r.validator == "LenValidation"@,
    ensures
        ({
            let out = rules_hints(e, seq![r]);
            let t = primary_type(e);
            let (lo, hi) = if t == Some("string"@) {
                ("minLength"@, "maxLength"@)
            } else {
                ("minItems"@, "maxItems"@)
            };
            &&& (t == Some("string"@) || t == Some("array"@)) ==> {
                &&& map_get(out, lo) == match count_of(r.params, "min"@) {
                    Some(n) => Some(Json::Number(NumberModel::PosInt(n))),
                    None => map_get(e, lo),
                }
                &&& map_get(out, hi) == match count_of(r.params, "max"@) {
                    Some(n) => Some(Json::Number(NumberModel::PosInt(n))),
                    None => map_get(e, hi),
                }
                &&& (k != lo && k != hi) ==> map_get(out, k) == map_get(e, k)
            }
            &&& !(t == Some("string"@) || t == Some("array"@)) ==> out == e
        }),
{
    reveal_strlit("LenValidation");
    reveal_strlit("minLength");
    reveal_strlit("maxLength");
    reveal_strlit("minItems");
    reveal_strlit("maxItems");
    reveal_strlit("string");
    reveal_strlit("array");
    assert("minLength"@[1] != "maxLength"@[1] && "minItems"@[1] != "maxItems"@[1]);
    assert("string"@.len() != "array"@.len());
    lemma_single_rule_hint(e, r);
    let t = primary_type(e);
    if t == Some("string"@) || t == Some("array"@) {
        let (lo, hi) = if t == Some("string"@) {
            ("minLength"@, "maxLength"@)
        } else {
            ("minItems"@, "maxItems"@)
        };
        let vmin = param_count(r.params, "min"@);
        let vmax = param_count(r.params, "max"@);
        let e1 = insert_some(e, lo, vmin);
        match vmin {
            Some(x) => {
                lemma_map_insert_get(e, lo, x, lo);
                lemma_map_insert_get(e, lo, x, hi);
                lemma_map_insert_get(e, lo, x, k);
            },
            None => {},
        }
        match vmax {
            Some(x) => {
                lemma_map_insert_get(e1, hi, x, lo);
                lemma_map_insert_get(e1, hi, x, hi);
                lemma_map_insert_get(e1, hi, x, k);
            },
            None => {},
        }
    }
}

/// A range rule bounds integer and number schemas: its `min` literal, read
/// as a JSON number, becomes `minimum`, or `exclusiveMinimum` when the
/// `exclusive_min` literal is `true` (likewise `max`), a bound without a
/// readable literal is left as it was, every other key is kept, and a
/// schema of another type is unchanged.
pub proof fn lemma_range_hint_bounds(e: Seq<(Seq<char>, Json)>, r: RuleModel, k: Seq<char>)
    requires
        r.validator == "RangeValidation"@,
    ensures
        ({
            let out = rules_hints(e, seq![r]);
            let t = primary_type(e);
            let lo = if param_literal(r.params, "exclusive_min"@) == Some("true"@) {
                "exclusiveMinimum"@
            } else {
                "minimum"@
            };
            let hi = if param_literal(r.params, "exclusive_max"@) == Some("true"@) {
                "exclusiveMaximum"@
            } else {
                "maximum"@
            };
            let lo_value = match param_literal(r.params, "min"@) {
                Some(l) => literal_number(l),
                None => None,
            };
            let hi_value = match param_literal(r.params, "max"@) {
                Some(l) => literal_number(l),
                None => None,
            };
            &&& (t == Some("integer"@) || t == Some("number"@)) ==> {
                &&& map_get(out, lo) == match lo_value {
                    Some(v) => Some(v),
                    None => map_get(e, lo),
                }
                &&& map_get(out, hi) == match hi_value {
                    Some(v) => Some(v),
                    None => map_get(e, hi),
                }
                &&& (k != lo && k != hi) ==> map_get(out, k) == map_get(e, k)
            }
            &&& !(t == Some("integer"@) || t == Some("number"@)) ==> out == e
        }),
{
    reveal_strlit("RangeValidation");
    reveal_strlit("LenValidation");
    reveal_strlit("minimum");
    reveal_strlit("maximum");
    reveal_strlit("exclusiveMinimum");
    reveal_strlit("exclusiveMaximum");
    assert("RangeValidation"@.len() != "LenValidation"@.len());
    assert("minimum"@.len() == 7 && "maximum"@.len() == 7 && "minimum"@[1] != "maximum"@[1]);
    assert("exclusiveMinimum"@[10] != "exclusiveMaximum"@[10]);
    assert("exclusiveMinimum"@.len() == 16 && "exclusiveMaximum"@.len() == 16);
    lemma_single_rule_hint(e, r);
    let t = primary_type(e);
    if t == Some("integer"@) || t == Some("number"@) {
        let lo = if param_literal(r.params, "exclusive_min"@) == Some("true"@) {
            "exclusiveMinimum"@
        } else {
            "minimum"@
        };
        let hi = if param_literal(r.params, "exclusive_max"@) == Some("true"@) {
            "exclusiveMaximum"@
        } else {
            "maximum"@
        };
        let vmin = param_number(r.params, "min"@);
        let vmax = param_number(r.params, "max"@);
        let e1 = insert_some(e, lo, vmin);
        match vmin {
            Some(x) => {
                lemma_map_insert_get(e, lo, x, lo);
                lemma_map_insert_get(e, lo, x, hi);
                lemma_map_insert_get(e, lo, x, k);
            },
            None => {},
        }
        match vmax {
            Some(x) => {
                lemma_map_insert_get(e1, hi, x, lo);
                lemma_map_insert_get(e1, hi, x, hi);
                lemma_map_insert_get(e1, hi, x, k);
            },
            None => {},
        }
    }
}

} // verus!
