//! Null acceptance of schemas and normalization of tool values: alias
//! spellings of properties and enum values are rewritten to the names that
//! the decoder expects.

use crate::closed_schema::{
    additional_schema, aliases_of, closed_applies, closed_schema_applies_to_value, pairs_view, props_of,
    views_of, wire_lookup, wire_names, wire_pairs, lookup_wire,
};
use crate::json::{
    copy_str, has_key, is_first_key_index, lemma_array_view, lemma_first_key_index_unique,
    lemma_insert_pos_exists, lemma_map_insert_get, lemma_object_view, map_get, map_insert, str_eq, Json,
    JsonMap, JsonNumber, JsonValue,
};
use crate::schema_lookup::{
    get_array, get_object, get_str, lemma_get_decreases, lookup_array, lookup_object, lookup_str,
    schema_type_includes, type_includes,
};
use vstd::prelude::*;

verus! {

// ---------------------------------------------------------------------------
// Null acceptance
// ---------------------------------------------------------------------------
/// Whether a `type` keyword value names `null`.
pub open spec fn type_allows_null(t: Json) -> bool {
    match t {
        Json::String(v) => v == "null"@,
        Json::Array(vs) => exists|i: int| 0 <= i < vs.len() && vs[i] == Json::String("null"@),
        _ => false,
    }
}

/// Whether a schema accepts JSON `null`: `true`, `{}`, a `type` naming null,
/// `const: null`, an `enum` listing null, an `anyOf`/`oneOf` branch that
/// accepts null, or `allOf` branches that all accept it.
pub open spec fn allows_null(schema: Json) -> bool
    decreases schema, 0nat,
{
    match schema {
        Json::Bool(b) => b,
        Json::Object(e) => {
            proof {
                lemma_get_decreases(e, "anyOf"@);
                lemma_get_decreases(e, "oneOf"@);
                lemma_get_decreases(e, "allOf"@);
            }
            ||| e.len() == 0
            ||| match map_get(e, "type"@) {
                Some(t) => type_allows_null(t),
                None => false,
            }
            ||| map_get(e, "const"@) == Some(Json::Null)
            ||| match get_array(e, "enum"@) {
                Some(vs) => exists|i: int| 0 <= i < vs.len() && vs[i] == Json::Null,
                None => false,
            }
            ||| match get_array(e, "anyOf"@) {
                Some(ss) => any_allows_null(ss, 0),
                None => false,
            }
            ||| match get_array(e, "oneOf"@) {
                Some(ss) => any_allows_null(ss, 0),
                None => false,
            }
            ||| match get_array(e, "allOf"@) {
                Some(ss) => all_allow_null(ss, 0),
                None => false,
            }
        },
        _ => false,
    }
}

/// Whether some branch from index `i` on accepts null.
pub open spec fn any_allows_null(ss: Seq<Json>, i: int) -> bool
    decreases ss, ss.len() - i,
{
    if i < 0 || i >= ss.len() {
        false
    } else {
        allows_null(ss[i]) || any_allows_null(ss, i + 1)
    }
}

/// Whether every branch from index `i` on accepts null.
pub open spec fn all_allow_null(ss: Seq<Json>, i: int) -> bool
    decreases ss, ss.len() - i,
{
    if i < 0 || i >= ss.len() {
        true
    } else {
        allows_null(ss[i]) && all_allow_null(ss, i + 1)
    }
}

fn type_value_allows_null(t: &JsonValue) -> (r: bool)
    ensures
        r == type_allows_null(t@),
{
    match t {
        JsonValue::String(v) => str_eq(v.as_str(), "null"),
        JsonValue::Array(values) => {
            proof {
                lemma_array_view(*values);
            }
            let n = values.len();
            let mut i: usize = 0;
            while i < n
                invariant
                    n == values@.len(),
                    i <= n,
                    t@ == Json::Array(views_of(values@)),
                    forall|j: int| 0 <= j < i ==> values@[j]@ != Json::String("null"@),
                decreases n - i,
            {
                match &values[i] {
                    JsonValue::String(s) => {
                        if str_eq(s.as_str(), "null") {
                            assert(views_of(values@)[i as int] == Json::String("null"@));
                            return true;
                        }
                    },
                    _ => {},
                }
                i = i + 1;
            }
            false
        },
        _ => false,
    }
}

/// Whether a JSON schema value accepts `null`.
pub fn value_schema_allows_null(schema: &JsonValue) -> (r: bool)
    ensures
        r == allows_null(schema@),
    decreases schema@, 0nat,
{
    match schema {
        JsonValue::Bool(b) => *b,
        JsonValue::Object(e) => {
            proof {
                lemma_object_view(*e);
                lemma_get_decreases(e@, "anyOf"@);
                lemma_get_decreases(e@, "oneOf"@);
                lemma_get_decreases(e@, "allOf"@);
            }
            if e.is_empty() {
                return true;
            }
            let type_ok = match e.get("type") {
                Some(t) => type_value_allows_null(t),
                None => false,
            };
            if type_ok {
                return true;
            }
            let const_ok = match e.get("const") {
                Some(c) => c.is_null(),
                None => false,
            };
            if const_ok {
                return true;
            }
            match lookup_array(e, "enum") {
                Some(values) => {
                    let n = values.len();
                    let mut i: usize = 0;
                    while i < n
                        invariant
                            n == values@.len(),
                            i <= n,
                            schema@ == Json::Object(e@),
                            get_array(e@, "enum"@) == Some(views_of(values@)),
                            forall|j: int| 0 <= j < i ==> !(values@[j]@ is Null),
                        decreases n - i,
                    {
                        if values[i].is_null() {
                            assert(views_of(values@)[i as int] == Json::Null);
                            return true;
                        }
                        i = i + 1;
                    }
                    assert(forall|j: int|
                        0 <= j < views_of(values@).len() ==> views_of(values@)[j] != Json::Null);
                },
                None => {},
            }
            match lookup_array(e, "anyOf") {
                Some(ss) => {
                    if any_null(ss, 0) {
                        return true;
                    }
                },
                None => {},
            }
            match lookup_array(e, "oneOf") {
                Some(ss) => {
                    if any_null(ss, 0) {
                        return true;
                    }
                },
                None => {},
            }
            match lookup_array(e, "allOf") {
                Some(ss) => all_null(ss, 0),
                None => false,
            }
        },
        _ => false,
    }
}

fn any_null(ss: &Vec<JsonValue>, i: usize) -> (r: bool)
    requires
        i <= ss@.len(),
    ensures
        r == any_allows_null(views_of(ss@), i as int),
    decreases views_of(ss@), ss@.len() - i,
{
    if i >= ss.len() {
        false
    } else {
        proof {
            assert(decreases_to!(views_of(ss@) => views_of(ss@)[i as int]));
        }
        value_schema_allows_null(&ss[i]) || any_null(ss, i + 1)
    }
}

fn all_null(ss: &Vec<JsonValue>, i: usize) -> (r: bool)
    requires
        i <= ss@.len(),
    ensures
        r == all_allow_null(views_of(ss@), i as int),
    decreases views_of(ss@), ss@.len() - i,
{
    if i >= ss.len() {
        true
    } else {
        proof {
            assert(decreases_to!(views_of(ss@) => views_of(ss@)[i as int]));
        }
        value_schema_allows_null(&ss[i]) && all_null(ss, i + 1)
    }
}

// ---------------------------------------------------------------------------
// Normalization: specification
// ---------------------------------------------------------------------------
/// The decode target of an enum alias spelling, from the schema's
/// `x-mcpEnumDecodeAliases` object.
pub open spec fn enum_alias_target(e: Seq<(Seq<char>, Json)>, s: Seq<char>) -> Option<Seq<char>> {
    match get_object(e, "x-mcpEnumDecodeAliases"@) {
        Some(aliases) => match map_get(aliases, s) {
            Some(Json::String(t)) => Some(t),
            _ => None,
        },
        None => None,
    }
}

/// Whether a schema lists the string `s` under `enum`.
pub open spec fn enum_lists(e: Seq<(Seq<char>, Json)>, s: Seq<char>) -> bool {
    match get_array(e, "enum"@) {
        Some(vs) => exists|i: int| 0 <= i < vs.len() && vs[i] == Json::String(s),
        None => false,
    }
}

/// Whether a composite branch applies to a value during normalization.
pub open spec fn applies_for_normalization(schema: Json, value: Json) -> bool {
    match schema {
        Json::Object(so) => {
            if so.len() == 0 || has_key(so, "anyOf"@) || has_key(so, "oneOf"@) || has_key(
                so,
                "allOf"@,
            ) {
                true
            } else {
                match value {
                    Json::Null => allows_null(schema),
                    Json::Bool(_) => type_includes(so, "boolean"@),
                    Json::Number(n) => match n {
                        crate::json::NumberModel::Float(_) => type_includes(so, "number"@),
                        _ => type_includes(so, "integer"@) || type_includes(so, "number"@),
                    },
                    Json::String(s) => type_includes(so, "string"@) || enum_lists(so, s)
                        || enum_alias_target(so, s) is Some,
                    _ => closed_applies(schema, value),
                }
            }
        },
        _ => schema == Json::Bool(true),
    }
}

/// Whether a schema object holds `anyOf`, `oneOf` or `allOf`.
pub open spec fn has_composite(schema: Json) -> bool {
    match schema {
        Json::Object(e) => has_key(e, "anyOf"@) || has_key(e, "oneOf"@) || has_key(e, "allOf"@),
        _ => false,
    }
}

/// Whether `k` is the first index from `i` on whose branch applies.
pub open spec fn is_first_applicable(ss: Seq<Json>, value: Json, k: int) -> bool {
    &&& 0 <= k < ss.len()
    &&& applies_for_normalization(ss[k], value)
    &&& forall|j: int| 0 <= j < k ==> !applies_for_normalization(#[trigger] ss[j], value)
}

/// The first branch that applies to the value, if any.
pub open spec fn first_applicable(ss: Seq<Json>, value: Json) -> Option<int> {
    if exists|k: int| is_first_applicable(ss, value, k) {
        Some(choose|k: int| is_first_applicable(ss, value, k))
    } else {
        None
    }
}

/// The property's decode name from `x-mcpDecodeName`, or the property name.
pub open spec fn decode_name(property_schema: Json, property: Seq<char>) -> Seq<char> {
    match property_schema {
        Json::Object(pe) => match get_str(pe, "x-mcpDecodeName"@) {
            Some(d) => d,
            None => property,
        },
        _ => property,
    }
}

/// The value with alias spellings rewritten as `schema` describes.
pub open spec fn normalize(schema: Json, value: Json) -> Json
    decreases schema, 3nat,
{
    if has_composite(schema) {
        normalize_composite(schema, value)
    } else {
        match schema {
            Json::Object(se) => {
                proof {
                    lemma_get_decreases(se, "items"@);
                    lemma_get_decreases(se, "prefixItems"@);
                    assert(decreases_to!(schema => se));
                }
                match value {
                    Json::Object(ve) => Json::Object(normalize_entries(se, ve, 0, Seq::empty())),
                    Json::Array(items) => match map_get(se, "items"@) {
                        Some(item_schema) => Json::Array(normalize_items(item_schema, items, 0)),
                        None => match get_array(se, "prefixItems"@) {
                            Some(ps) => Json::Array(normalize_prefix(ps, items, 0)),
                            None => value,
                        },
                    },
                    Json::String(s) => match enum_alias_target(se, s) {
                        Some(t) => Json::String(t),
                        None => value,
                    },
                    _ => value,
                }
            },
            _ => value,
        }
    }
}

/// Normalization through `anyOf`/`oneOf` (the first applicable branch of the
/// first keyword that has one) or, failing that, every applicable `allOf`
/// branch in turn.
pub open spec fn normalize_composite(schema: Json, value: Json) -> Json
    decreases schema, 2nat,
{
    match schema {
        Json::Object(se) => {
            proof {
                lemma_get_decreases(se, "anyOf"@);
                lemma_get_decreases(se, "oneOf"@);
                lemma_get_decreases(se, "allOf"@);
            }
            let any = match get_array(se, "anyOf"@) {
                Some(ss) => match first_applicable(ss, value) {
                    Some(k) => Some(normalize(ss[k], value)),
                    None => None,
                },
                None => None,
            };
            let one = match get_array(se, "oneOf"@) {
                Some(ss) => match first_applicable(ss, value) {
                    Some(k) => Some(normalize(ss[k], value)),
                    None => None,
                },
                None => None,
            };
            match any {
                Some(v) => v,
                None => match one {
                    Some(v) => v,
                    None => match get_array(se, "allOf"@) {
                        Some(ss) => normalize_all(ss, 0, value),
                        None => value,
                    },
                },
            }
        },
        _ => value,
    }
}

/// Applies every applicable `allOf` branch from index `i` on, in order.
pub open spec fn normalize_all(ss: Seq<Json>, i: int, value: Json) -> Json
    decreases ss, ss.len() - i,
{
    if i < 0 || i >= ss.len() {
        value
    } else {
        let next = if applies_for_normalization(ss[i], value) {
            normalize(ss[i], value)
        } else {
            value
        };
        normalize_all(ss, i + 1, next)
    }
}

/// Normalizes every item from index `i` on with the `items` schema.
pub open spec fn normalize_items(item_schema: Json, items: Seq<Json>, i: int) -> Seq<Json>
    decreases item_schema, items.len() - i + 4,
{
    if i < 0 || i >= items.len() {
        Seq::empty()
    } else {
        seq![normalize(item_schema, items[i])] + normalize_items(item_schema, items, i + 1)
    }
}

/// Normalizes items from index `i` on with their positional schemas; items
/// past the last positional schema are unchanged.
pub open spec fn normalize_prefix(ps: Seq<Json>, items: Seq<Json>, i: int) -> Seq<Json>
    decreases ps, items.len() - i,
{
    if i < 0 || i >= items.len() {
        Seq::empty()
    } else {
        let item = if i < ps.len() {
            normalize(ps[i], items[i])
        } else {
            items[i]
        };
        seq![item] + normalize_prefix(ps, items, i + 1)
    }
}

/// Normalizes object entries from index `j` on into `acc`: a property given
/// under any of its spellings is stored under its decode name with its value
/// normalized; other entries keep their name, normalized by the
/// `additionalProperties` schema when there is one.
pub open spec fn normalize_entries(
    se: Seq<(Seq<char>, Json)>,
    ve: Seq<(Seq<char>, Json)>,
    j: int,
    acc: Seq<(Seq<char>, Json)>,
) -> Seq<(Seq<char>, Json)>
    decreases se, ve.len() - j,
{
    if j < 0 || j >= ve.len() {
        acc
    } else {
        let name = ve[j].0;
        let nested = ve[j].1;
        proof {
            lemma_get_decreases(se, "additionalProperties"@);
            lemma_get_decreases(se, "properties"@);
        }
        match wire_lookup(wire_pairs(props_of(se)), name) {
            None => {
                let v = match additional_schema(se) {
                    Some(a) => normalize(a, nested),
                    None => nested,
                };
                normalize_entries(se, ve, j + 1, map_insert(acc, name, v))
            },
            Some(p) => {
                proof {
                    lemma_get_decreases(props_of(se), p);
                    if let Some(ps) = map_get(props_of(se), p) {
                        assert(decreases_to!(se => props_of(se)));
                        assert(decreases_to!(props_of(se) => ps));
                        assert(decreases_to!(se => ps));
                    }
                }
                match map_get(props_of(se), p) {
                    Some(ps) => normalize_entries(
                        se,
                        ve,
                        j + 1,
                        map_insert(acc, decode_name(ps, p), normalize(ps, nested)),
                    ),
                    None => normalize_entries(se, ve, j + 1, map_insert(acc, p, nested)),
                }
            },
        }
    }
}


// ---------------------------------------------------------------------------
// Normalization: implementation
// ---------------------------------------------------------------------------
fn enum_alias_target_of<'a>(se: &'a JsonMap, s: &str) -> (r: Option<&'a str>)
    ensures
        match r {
            Some(t) => enum_alias_target(se@, s@) == Some(t@),
            None => enum_alias_target(se@, s@) is None,
        },
{
    match lookup_object(se, "x-mcpEnumDecodeAliases") {
        Some(aliases) => match aliases.get(s) {
            Some(v) => v.as_str(),
            None => None,
        },
        None => None,
    }
}

fn enum_lists_str(se: &JsonMap, s: &str) -> (r: bool)
    ensures
        r == enum_lists(se@, s@),
{
    match lookup_array(se, "enum") {
        Some(values) => {
            let n = values.len();
            let mut i: usize = 0;
            while i < n
                invariant
                    n == values@.len(),
                    i <= n,
                    get_array(se@, "enum"@) == Some(views_of(values@)),
                    forall|j: int| 0 <= j < i ==> values@[j]@ != Json::String(s@),
                decreases n - i,
            {
                match &values[i] {
                    JsonValue::String(c) => {
                        if str_eq(c.as_str(), s) {
                            assert(views_of(values@)[i as int] == Json::String(s@));
                            return true;
                        }
                    },
                    _ => {},
                }
                i = i + 1;
            }
            assert(forall|j: int|
                0 <= j < views_of(values@).len() ==> views_of(values@)[j] != Json::String(s@));
            false
        },
        None => false,
    }
}

/// Whether a composite branch applies to a value during normalization.
pub fn schema_applies_to_value_for_normalization(schema: &JsonValue, value: &JsonValue) -> (r:
    bool)
    ensures
        r == applies_for_normalization(schema@, value@),
{
    let so = match schema {
        JsonValue::Object(so) => {
            proof {
                lemma_object_view(*so);
            }
            so
        },
        JsonValue::Bool(b) => {
            return *b;
        },
        _ => {
            return false;
        },
    };
    if so.is_empty() || so.contains_key("anyOf") || so.contains_key("oneOf") || so.contains_key(
        "allOf",
    ) {
        return true;
    }
    match value {
        JsonValue::Null => value_schema_allows_null(schema),
        JsonValue::Bool(_) => schema_type_includes(so, "boolean"),
        JsonValue::Number(JsonNumber::Float(_)) => schema_type_includes(so, "number"),
        JsonValue::Number(_) => schema_type_includes(so, "integer") || schema_type_includes(
            so,
            "number",
        ),
        JsonValue::String(s) => schema_type_includes(so, "string") || enum_lists_str(
            so,
            s.as_str(),
        ) || enum_alias_target_of(so, s.as_str()).is_some(),
        _ => closed_schema_applies_to_value(schema, value),
    }
}

fn first_applicable_index(ss: &Vec<JsonValue>, value: &JsonValue) -> (r: Option<usize>)
    ensures
        match r {
            Some(k) => first_applicable(views_of(ss@), value@) == Some(k as int) && k < ss@.len(),
            None => first_applicable(views_of(ss@), value@) is None,
        },
{
    let ghost v = views_of(ss@);
    let n = ss.len();
    let mut i: usize = 0;
    while i < n
        invariant
            n == ss@.len(),
            i <= n,
            v == views_of(ss@),
            forall|j: int| 0 <= j < i ==> !applies_for_normalization(#[trigger] v[j], value@),
        decreases n - i,
    {
        if schema_applies_to_value_for_normalization(&ss[i], value) {
            proof {
                assert(is_first_applicable(v, value@, i as int));
                let c = choose|k: int| is_first_applicable(v, value@, k);
                if c < i {
                    assert(!applies_for_normalization(v[c], value@));
                } else if c > i {
                    assert(applies_for_normalization(v[i as int], value@));
                }
            }
            return Some(i);
        }
        i = i + 1;
    }
    proof {
        if exists|k: int| is_first_applicable(v, value@, k) {
            let c = choose|k: int| is_first_applicable(v, value@, k);
            assert(!applies_for_normalization(v[c], value@));
        }
    }
    None
}

/// Normalizes `value` as `schema` describes: property aliases become decode
/// names and enum alias spellings become the enum value they stand for.
pub fn normalize_value_against_schema(schema: &JsonValue, value: JsonValue) -> (r: JsonValue)
    ensures
        r@ == normalize(schema@, value@),
{
    normalize_ref(schema, &value)
}

fn normalize_ref(schema: &JsonValue, value: &JsonValue) -> (r: JsonValue)
    ensures
        r@ == normalize(schema@, value@),
    decreases schema@, 3nat,
{
    if has_composite_keywords(schema) {
        return normalize_composite_ref(schema, value);
    }
    let se = match schema.as_object() {
        Some(se) => se,
        None => {
            return value.copy();
        },
    };
    proof {
        lemma_get_decreases(se@, "items"@);
        lemma_get_decreases(se@, "prefixItems"@);
        assert(decreases_to!(schema@ => se@));
    }
    match value {
        JsonValue::Object(ve) => {
            proof {
                lemma_object_view(*ve);
            }
            let mut acc = JsonMap::new();
            entries_normalize(se, ve, 0, &mut acc);
            proof {
                lemma_object_view(acc);
            }
            JsonValue::Object(acc)
        },
        JsonValue::Array(items) => {
            proof {
                lemma_array_view(*items);
            }
            match se.get("items") {
                Some(item_schema) => {
                    let out = items_normalize(item_schema, items, 0);
                    proof {
                        lemma_array_view(out);
                    }
                    JsonValue::Array(out)
                },
                None => match lookup_array(se, "prefixItems") {
                    Some(ps) => {
                        let out = prefix_normalize(ps, items, 0);
                        proof {
                            lemma_array_view(out);
                        }
                        JsonValue::Array(out)
                    },
                    None => value.copy(),
                },
            }
        },
        JsonValue::String(s) => match enum_alias_target_of(se, s.as_str()) {
            Some(t) => JsonValue::String(copy_str(t)),
            None => value.copy(),
        },
        _ => value.copy(),
    }
}

fn has_composite_keywords(schema: &JsonValue) -> (r: bool)
    ensures
        r == has_composite(schema@),
{
    match schema.as_object() {
        Some(e) => e.contains_key("anyOf") || e.contains_key("oneOf") || e.contains_key("allOf"),
        None => false,
    }
}

fn normalize_composite_ref(schema: &JsonValue, value: &JsonValue) -> (r: JsonValue)
    ensures
        r@ == normalize_composite(schema@, value@),
    decreases schema@, 2nat,
{
    let se = match schema.as_object() {
        Some(se) => se,
        None => {
            return value.copy();
        },
    };
    proof {
        lemma_get_decreases(se@, "anyOf"@);
        lemma_get_decreases(se@, "oneOf"@);
        lemma_get_decreases(se@, "allOf"@);
        assert(decreases_to!(schema@ => se@));
    }
    match lookup_array(se, "anyOf") {
        Some(ss) => match first_applicable_index(ss, value) {
            Some(k) => {
                proof {
                    assert(decreases_to!(views_of(ss@) => views_of(ss@)[k as int]));
                }
                return normalize_ref(&ss[k], value);
            },
            None => {},
        },
        None => {},
    }
    match lookup_array(se, "oneOf") {
        Some(ss) => match first_applicable_index(ss, value) {
            Some(k) => {
                proof {
                    assert(decreases_to!(views_of(ss@) => views_of(ss@)[k as int]));
                }
                return normalize_ref(&ss[k], value);
            },
            None => {},
        },
        None => {},
    }
    match lookup_array(se, "allOf") {
        Some(ss) => all_normalize(ss, 0, value.copy()),
        None => value.copy(),
    }
}

fn all_normalize(ss: &Vec<JsonValue>, i: usize, value: JsonValue) -> (r: JsonValue)
    requires
        i <= ss@.len(),
    ensures
        r@ == normalize_all(views_of(ss@), i as int, value@),
    decreases views_of(ss@), ss@.len() - i,
{
    if i >= ss.len() {
        value
    } else {
        proof {
            assert(decreases_to!(views_of(ss@) => views_of(ss@)[i as int]));
        }
        let next = if schema_applies_to_value_for_normalization(&ss[i], &value) {
            normalize_ref(&ss[i], &value)
        } else {
            value
        };
        all_normalize(ss, i + 1, next)
    }
}

fn items_normalize(item_schema: &JsonValue, items: &Vec<JsonValue>, i: usize) -> (r: Vec<
    JsonValue,
>)
    requires
        i <= items@.len(),
    ensures
        views_of(r@) == normalize_items(item_schema@, views_of(items@), i as int),
    decreases item_schema@, items@.len() - i + 4,
{
    if i >= items.len() {
        let r: Vec<JsonValue> = Vec::new();
        assert(views_of(r@) =~= Seq::<Json>::empty());
        r
    } else {
        let first = normalize_ref(item_schema, &items[i]);
        let mut rest = items_normalize(item_schema, items, i + 1);
        let ghost rest_v = views_of(rest@);
        rest.insert(0, first);
        assert(views_of(rest@) =~= seq![first@] + rest_v);
        rest
    }
}

fn prefix_normalize(ps: &Vec<JsonValue>, items: &Vec<JsonValue>, i: usize) -> (r: Vec<JsonValue>)
    requires
        i <= items@.len(),
    ensures
        views_of(r@) == normalize_prefix(views_of(ps@), views_of(items@), i as int),
    decreases views_of(ps@), items@.len() - i,
{
    if i >= items.len() {
        let r: Vec<JsonValue> = Vec::new();
        assert(views_of(r@) =~= Seq::<Json>::empty());
        r
    } else {
        let first = if i < ps.len() {
            proof {
                assert(decreases_to!(views_of(ps@) => views_of(ps@)[i as int]));
            }
            normalize_ref(&ps[i], &items[i])
        } else {
            items[i].copy()
        };
        let mut rest = prefix_normalize(ps, items, i + 1);
        let ghost rest_v = views_of(rest@);
        rest.insert(0, first);
        assert(views_of(rest@) =~= seq![first@] + rest_v);
        rest
    }
}

fn decode_name_of<'a>(property_schema: &'a JsonValue, property: &'a str) -> (r: &'a str)
    ensures
        r@ == decode_name(property_schema@, property@),
{
    match property_schema.as_object() {
        Some(pe) => match lookup_str(pe, "x-mcpDecodeName") {
            Some(d) => d,
            None => property,
        },
        None => property,
    }
}

fn entries_normalize(se: &JsonMap, ve: &JsonMap, j: usize, acc: &mut JsonMap)
    requires
        j <= ve@.len(),
    ensures
        final(acc)@ == normalize_entries(se@, ve@, j as int, old(acc)@),
    decreases se@, ve@.len() - j,
{
    if j >= ve.len() {
        return;
    }
    let name = ve.key_at(j);
    let nested = ve.value_at(j);
    proof {
        lemma_get_decreases(se@, "additionalProperties"@);
        lemma_get_decreases(se@, "properties"@);
    }
    let props = lookup_object(se, "properties");
    let pairs = match props {
        Some(p) => wire_names(p),
        None => {
            let v: Vec<(String, String)> = Vec::new();
            proof {
                reveal_with_fuel(wire_pairs, 1);
                assert(pairs_view(v@) =~= wire_pairs(Seq::<(Seq<char>, Json)>::empty()));
            }
            v
        },
    };
    match lookup_wire(&pairs, name.as_str()) {
        None => {
            let v = match se.get("additionalProperties") {
                Some(JsonValue::Bool(_)) => nested.copy(),
                None => nested.copy(),
                Some(a) => normalize_ref(a, nested),
            };
            acc.insert(copy_str(name.as_str()), v);
            entries_normalize(se, ve, j + 1, acc);
        },
        Some(p) => {
            match props {
                Some(props) => {
                    proof {
                        lemma_get_decreases(props@, p@);
                        if let Some(ps) = map_get(props@, p@) {
                            assert(decreases_to!(se@ => props@));
                            assert(decreases_to!(props@ => ps));
                            assert(decreases_to!(se@ => ps));
                        }
                    }
                    match props.get(p.as_str()) {
                        Some(ps) => {
                            let v = normalize_ref(ps, nested);
                            let d = decode_name_of(ps, p.as_str());
                            acc.insert(copy_str(d), v);
                        },
                        None => {
                            acc.insert(copy_str(p.as_str()), nested.copy());
                        },
                    }
                },
                None => {
                    acc.insert(copy_str(p.as_str()), nested.copy());
                },
            }
            entries_normalize(se, ve, j + 1, acc);
        },
    }
}


// ---------------------------------------------------------------------------
// Laws
// ---------------------------------------------------------------------------
/// The key a declared property is stored under: the string under
/// `x-mcpDecodeName` of the property's schema, or else the property's own
/// name.
pub open spec fn stored_key(property_schema: Json, property: Seq<char>) -> Seq<char> {
    match property_schema {
        Json::Object(pe) => match map_get(pe, "x-mcpDecodeName"@) {
            Some(Json::String(d)) => d,
            _ => property,
        },
        _ => property,
    }
}

proof fn lemma_entries_keep_keys(
    se: Seq<(Seq<char>, Json)>,
    ve: Seq<(Seq<char>, Json)>,
    j: int,
    acc: Seq<(Seq<char>, Json)>,
    k: Seq<char>,
)
    requires
        0 <= j,
        map_get(acc, k) is Some,
    ensures
        map_get(normalize_entries(se, ve, j, acc), k) is Some,
    decreases ve.len() - j,
{
    if j < ve.len() {
        let name = ve[j].0;
        let nested = ve[j].1;
        match wire_lookup(wire_pairs(props_of(se)), name) {
            None => {
                let v = match additional_schema(se) {
                    Some(a) => normalize(a, nested),
                    None => nested,
                };
                lemma_map_insert_get(acc, name, v, k);
                lemma_entries_keep_keys(se, ve, j + 1, map_insert(acc, name, v), k);
            },
            Some(p) => match map_get(props_of(se), p) {
                Some(ps) => {
                    let nk = decode_name(ps, p);
                    let nv = normalize(ps, nested);
                    lemma_map_insert_get(acc, nk, nv, k);
                    lemma_entries_keep_keys(se, ve, j + 1, map_insert(acc, nk, nv), k);
                },
                None => {
                    lemma_map_insert_get(acc, p, nested, k);
                    lemma_entries_keep_keys(se, ve, j + 1, map_insert(acc, p, nested), k);
                },
            },
        }
    }
}

proof fn lemma_entries_store_property(
    se: Seq<(Seq<char>, Json)>,
    ve: Seq<(Seq<char>, Json)>,
    j: int,
    acc: Seq<(Seq<char>, Json)>,
    i: int,
    p: Seq<char>,
    ps: Json,
)
    requires
        0 <= j <= i < ve.len(),
        wire_lookup(wire_pairs(props_of(se)), ve[i].0) == Some(p),
        map_get(props_of(se), p) == Some(ps),
    ensures
        map_get(normalize_entries(se, ve, j, acc), stored_key(ps, p)) is Some,
    decreases ve.len() - j,
{
    assert(stored_key(ps, p) == decode_name(ps, p));
    let name = ve[j].0;
    let nested = ve[j].1;
    let next = match wire_lookup(wire_pairs(props_of(se)), name) {
        None => map_insert(
            acc,
            name,
            match additional_schema(se) {
                Some(a) => normalize(a, nested),
                None => nested,
            },
        ),
        Some(q) => match map_get(props_of(se), q) {
            Some(qs) => map_insert(acc, decode_name(qs, q), normalize(qs, nested)),
            None => map_insert(acc, q, nested),
        },
    };
    assert(normalize_entries(se, ve, j, acc) == normalize_entries(se, ve, j + 1, next));
    if j < i {
        lemma_entries_store_property(se, ve, j + 1, next, i, p, ps);
    } else {
        lemma_map_insert_get(acc, decode_name(ps, p), normalize(ps, nested), decode_name(ps, p));
        lemma_entries_keep_keys(se, ve, j + 1, next, decode_name(ps, p));
    }
}

/// Normalizing an object against an object schema (without `anyOf`,
/// `oneOf` or `allOf`) stores every entry given under a declared property's
/// name or alias under that property's decode name (its `x-mcpDecodeName`, or
/// else the property's own name), never under the spelling it was given in.
pub proof fn lemma_normalize_stores_properties_under_decode_names(
    se: Seq<(Seq<char>, Json)>,
    ve: Seq<(Seq<char>, Json)>,
    i: int,
    p: Seq<char>,
    ps: Json,
)
    requires
        !has_composite(Json::Object(se)),
        0 <= i < ve.len(),
        wire_lookup(wire_pairs(props_of(se)), ve[i].0) == Some(p),
        map_get(props_of(se), p) == Some(ps),
    ensures
        normalize(Json::Object(se), Json::Object(ve)) matches Json::Object(out) && map_get(
            out,
            stored_key(ps, p),
        ) is Some,
{
    lemma_entries_store_property(se, ve, 0, Seq::empty(), i, p, ps);
}

/// An object of one entry, given under a spelling that stands for a declared
/// property, normalizes to the object of one entry: the property's decode
/// name with the entry's value normalized by the property's schema.
pub proof fn lemma_normalize_single_property(
    se: Seq<(Seq<char>, Json)>,
    w: Seq<char>,
    v: Json,
    p: Seq<char>,
    ps: Json,
)
    requires
        !has_composite(Json::Object(se)),
        wire_lookup(wire_pairs(props_of(se)), w) == Some(p),
        map_get(props_of(se), p) == Some(ps),
    ensures
        normalize(Json::Object(se), Json::Object(seq![(w, v)])) == Json::Object(
            seq![(stored_key(ps, p), normalize(ps, v))],
        ),
{
    let ve = seq![(w, v)];
    let key = decode_name(ps, p);
    assert(stored_key(ps, p) == key);
    let empty = Seq::<(Seq<char>, Json)>::empty();
    let acc = map_insert(empty, key, normalize(ps, v));
    assert(normalize_entries(se, ve, 0, empty) == normalize_entries(se, ve, 1, acc));
    lemma_insert_pos_exists(empty, key);
    assert(acc =~= seq![(key, normalize(ps, v))]);
}

proof fn lemma_wire_lookup_single_target(pairs: Seq<(Seq<char>, Seq<char>)>, w: Seq<char>, p: Seq<char>)
    requires
        exists|i: int| 0 <= i < pairs.len() && #[trigger] pairs[i].0 == w,
        forall|i: int| 0 <= i < pairs.len() ==> #[trigger] pairs[i].1 == p,
    ensures
        wire_lookup(pairs, w) == Some(p),
    decreases pairs.len(),
{
    if pairs.last().0 != w {
        let d = pairs.drop_last();
        let i = choose|i: int| 0 <= i < pairs.len() && #[trigger] pairs[i].0 == w;
        assert(d[i].0 == w);
        assert forall|k: int| 0 <= k < d.len() implies #[trigger] d[k].1 == p by {
            assert(d[k] == pairs[k]);
        }
        lemma_wire_lookup_single_target(d, w, p);
    }
}

/// With one declared property `p` whose `x-mcpAliases` lists `a`, an object
/// holding only `a` normalizes to one holding only `p` (or `p`'s
/// `x-mcpDecodeName`), with the value normalized by `p`'s schema; the alias
/// spelling is gone.
pub proof fn lemma_normalize_alias_to_property(
    se: Seq<(Seq<char>, Json)>,
    p: Seq<char>,
    ps: Json,
    a: Seq<char>,
    v: Json,
)
    requires
        !has_composite(Json::Object(se)),
        props_of(se) == seq![(p, ps)],
        aliases_of(ps).contains(a),
    ensures
        normalize(Json::Object(se), Json::Object(seq![(a, v)])) == Json::Object(
            seq![(stored_key(ps, p), normalize(ps, v))],
        ),
{
    let props = seq![(p, ps)];
    let aliases = aliases_of(ps);
    assert(props.drop_last() =~= Seq::<(Seq<char>, Json)>::empty());
    assert(props.last() == (p, ps));
    let pairs = wire_pairs(props);
    assert(wire_pairs(Seq::<(Seq<char>, Json)>::empty()) =~= Seq::<(Seq<char>, Seq<char>)>::empty());
    assert(pairs =~= seq![(p, p)] + Seq::new(aliases.len(), |i: int| (aliases[i], p)));
    let k = choose|k: int| 0 <= k < aliases.len() && aliases[k] == a;
    assert(pairs[k + 1].0 == a);
    assert forall|i: int| 0 <= i < pairs.len() implies #[trigger] pairs[i].1 == p by {}
    lemma_wire_lookup_single_target(pairs, a, p);
    assert(map_get(props_of(se), p) == Some(ps)) by {
        assert(props[0].0 == p);
        assert(is_first_key_index(props, p, 0));
        lemma_first_key_index_unique(props, p, 0);
    }
    lemma_normalize_single_property(se, a, v, p, ps);
}


proof fn lemma_normalize_items_at(item_schema: Json, items: Seq<Json>, j: int)
    requires
        0 <= j <= items.len(),
    ensures
        normalize_items(item_schema, items, j).len() == items.len() - j,
        forall|k: int|
            j <= k < items.len() ==> #[trigger] normalize_items(item_schema, items, j)[k - j]
                == normalize(item_schema, items[k]),
    decreases items.len() - j,
{
    if j < items.len() {
        lemma_normalize_items_at(item_schema, items, j + 1);
        let rest = normalize_items(item_schema, items, j + 1);
        let all = normalize_items(item_schema, items, j);
        assert(all == seq![normalize(item_schema, items[j])] + rest);
        assert forall|k: int| j <= k < items.len() implies #[trigger] all[k - j] == normalize(
            item_schema,
            items[k],
        ) by {
            if k > j {
                assert(all[k - j] == rest[k - (j + 1)]);
                assert(rest[k - (j + 1)] == normalize(item_schema, items[k]));
            }
        }
    }
}

/// An array value under a schema with `items` (and no `anyOf`, `oneOf` or
/// `allOf`) keeps its length, and each item is normalized by the `items`
/// schema.
pub proof fn lemma_normalize_array_items(se: Seq<(Seq<char>, Json)>, item_schema: Json, items: Seq<Json>)
    requires
        !has_composite(Json::Object(se)),
        map_get(se, "items"@) == Some(item_schema),
    ensures
        normalize(Json::Object(se), Json::Array(items)) matches Json::Array(out) && out.len()
            == items.len() && forall|k: int|
            0 <= k < items.len() ==> #[trigger] out[k] == normalize(item_schema, items[k]),
{
    lemma_normalize_items_at(item_schema, items, 0);
    let out = normalize_items(item_schema, items, 0);
    assert(normalize(Json::Object(se), Json::Array(items)) == Json::Array(out));
    assert forall|k: int| 0 <= k < items.len() implies #[trigger] out[k] == normalize(
        item_schema,
        items[k],
    ) by {
        assert(out[k - 0] == normalize(item_schema, items[k]));
    }
}

/// A string value under a schema whose `x-mcpEnumDecodeAliases` object maps
/// it to a string (and no `anyOf`, `oneOf` or `allOf`) becomes that string;
/// a string it does not map stays as it is.
pub proof fn lemma_normalize_enum_alias(se: Seq<(Seq<char>, Json)>, s: Seq<char>)
    requires
        !has_composite(Json::Object(se)),
    ensures
        normalize(Json::Object(se), Json::String(s)) == match get_object(
            se,
            "x-mcpEnumDecodeAliases"@,
        ) {
            Some(aliases) => match map_get(aliases, s) {
                Some(Json::String(t)) => Json::String(t),
                _ => Json::String(s),
            },
            None => Json::String(s),
        },
{
}


/// Under `anyOf`, a value is normalized by the first branch that applies to
/// it, and by no other.
pub proof fn lemma_normalize_any_of_first_branch(
    se: Seq<(Seq<char>, Json)>,
    ss: Seq<Json>,
    v: Json,
    k: int,
)
    requires
        get_array(se, "anyOf"@) == Some(ss),
        is_first_applicable(ss, v, k),
    ensures
        normalize(Json::Object(se), v) == normalize(ss[k], v),
{
    assert(has_key(se, "anyOf"@));
    assert(has_composite(Json::Object(se)));
    let c = choose|c: int| is_first_applicable(ss, v, c);
    assert(is_first_applicable(ss, v, c));
    if c < k {
        assert(!applies_for_normalization(ss[c], v));
    } else if c > k {
        assert(!applies_for_normalization(ss[k], v));
    }
    assert(first_applicable(ss, v) == Some(k));
}

} // verus!
