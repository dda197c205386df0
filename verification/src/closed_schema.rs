//! Closed-schema validation of tool values: required fields, unknown fields,
//! duplicate spellings of one field and nested object/array structure.

use crate::json::{
    copy_str, has_key, lemma_array_view, lemma_object_view, map_get, str_eq, Json, JsonMap,
    JsonValue,
};
use crate::schema_lookup::{
    get_array, get_object, indexed_field, lemma_get_decreases, lookup_array, lookup_object,
    nested_field, schema_type_includes, strings_of, type_includes,
};
use crate::text::{concat3, decimal_text};
use crate::tool_error::{McpToolError, ToolErrorModel};
use vstd::prelude::*;
use vstd::string::*;

verus! {

// ---------------------------------------------------------------------------
// Specification
// ---------------------------------------------------------------------------
/// Whether a branch of a composite schema applies to an object or array value
/// during closed validation.
pub open spec fn closed_applies(schema: Json, value: Json) -> bool {
    match schema {
        Json::Object(e) => {
            ||| has_key(e, "anyOf"@)
            ||| has_key(e, "oneOf"@)
            ||| has_key(e, "allOf"@)
            ||| match value {
                Json::Object(_) => type_includes(e, "object"@) || has_key(e, "properties"@)
                    || has_key(e, "required"@) || has_key(e, "additionalProperties"@),
                Json::Array(_) => type_includes(e, "array"@) || has_key(e, "items"@) || has_key(
                    e,
                    "prefixItems"@,
                ),
                _ => false,
            }
        },
        _ => false,
    }
}

/// The alias spellings a property schema declares under `x-mcpAliases`.
pub open spec fn aliases_of(property_schema: Json) -> Seq<Seq<char>> {
    match property_schema {
        Json::Object(pe) => match get_array(pe, "x-mcpAliases"@) {
            Some(a) => strings_of(a),
            None => Seq::empty(),
        },
        _ => Seq::empty(),
    }
}

/// The wire names of an object schema's properties, as (wire name, property)
/// pairs in the order they are recorded: each property under its own name,
/// then under each of its aliases. A later pair for the same wire name wins.
pub open spec fn wire_pairs(props: Seq<(Seq<char>, Json)>) -> Seq<(Seq<char>, Seq<char>)>
    decreases props.len(),
{
    if props.len() == 0 {
        Seq::empty()
    } else {
        let p = props.last();
        let aliases = aliases_of(p.1);
        wire_pairs(props.drop_last()).push((p.0, p.0)) + Seq::new(
            aliases.len(),
            |i: int| (aliases[i], p.0),
        )
    }
}

/// The property a wire name stands for: the last recorded pair for it.
pub open spec fn wire_lookup(pairs: Seq<(Seq<char>, Seq<char>)>, w: Seq<char>) -> Option<
    Seq<char>,
>
    decreases pairs.len(),
{
    if pairs.len() == 0 {
        None
    } else if pairs.last().0 == w {
        Some(pairs.last().1)
    } else {
        wire_lookup(pairs.drop_last(), w)
    }
}

/// The properties of an object schema (empty when absent).
pub open spec fn props_of(e: Seq<(Seq<char>, Json)>) -> Seq<(Seq<char>, Json)> {
    match get_object(e, "properties"@) {
        Some(p) => p,
        None => Seq::empty(),
    }
}

/// The schema for values of unlisted properties, when
/// `additionalProperties` holds a schema rather than a boolean.
pub open spec fn additional_schema(e: Seq<(Seq<char>, Json)>) -> Option<Json> {
    match map_get(e, "additionalProperties"@) {
        Some(Json::Bool(_)) => None,
        None => None,
        Some(s) => Some(s),
    }
}

/// Whether `additionalProperties` is `false`.
pub open spec fn rejects_additional(e: Seq<(Seq<char>, Json)>) -> bool {
    map_get(e, "additionalProperties"@) == Some(Json::Bool(false))
}

/// Whether a required property is present in the value under some spelling.
pub open spec fn required_present(
    pairs: Seq<(Seq<char>, Seq<char>)>,
    ve: Seq<(Seq<char>, Json)>,
    required: Seq<char>,
) -> bool {
    if pairs.len() == 0 {
        has_key(ve, required)
    } else {
        exists|i: int| 0 <= i < ve.len() && wire_lookup(pairs, ve[i].0) == Some(required)
    }
}

/// The first required property missing from the value, checking the
/// required names from index `i` on.
pub open spec fn check_required(
    field: Seq<char>,
    pairs: Seq<(Seq<char>, Seq<char>)>,
    ve: Seq<(Seq<char>, Json)>,
    required: Seq<Seq<char>>,
    i: int,
) -> Result<(), ToolErrorModel>
    decreases required.len() - i,
{
    if i < 0 || i >= required.len() {
        Ok(())
    } else if !required_present(pairs, ve, required[i]) {
        Err(ToolErrorModel::MissingField { field: nested_field(field, required[i]) })
    } else {
        check_required(field, pairs, ve, required, i + 1)
    }
}

/// The required names listed by an object schema.
pub open spec fn required_of(e: Seq<(Seq<char>, Json)>) -> Seq<Seq<char>> {
    match get_array(e, "required"@) {
        Some(a) => strings_of(a),
        None => Seq::empty(),
    }
}

/// Validates a value against a schema: `Ok` when every nested object obeys
/// its schema's closed-object rules, or the first violation found.
pub open spec fn closed_check(field: Seq<char>, schema: Json, value: Json) -> Result<
    (),
    ToolErrorModel,
>
    decreases schema, 0nat,
{
    if value is Null {
        Ok(())
    } else {
        match schema {
            Json::Object(se) => {
                proof {
                    lemma_get_decreases(se, "anyOf"@);
                    lemma_get_decreases(se, "oneOf"@);
                    lemma_get_decreases(se, "allOf"@);
                    lemma_get_decreases(se, "items"@);
                    lemma_get_decreases(se, "prefixItems"@);
                    assert(decreases_to!(schema => se));
                }
                match value {
                    Json::Object(ve) => {
                        let r1 = match get_array(se, "anyOf"@) {
                            Some(ss) => check_any(field, ss, 0, value, None),
                            None => Ok(()),
                        };
                        let r2 = match get_array(se, "oneOf"@) {
                            Some(ss) => check_any(field, ss, 0, value, None),
                            None => Ok(()),
                        };
                        let r3 = match get_array(se, "allOf"@) {
                            Some(ss) => check_all(field, ss, 0, value),
                            None => Ok(()),
                        };
                        if r1 is Err {
                            r1
                        } else if r2 is Err {
                            r2
                        } else if r3 is Err {
                            r3
                        } else {
                            check_object(field, se, ve)
                        }
                    },
                    Json::Array(items) => {
                        let r1 = match get_array(se, "anyOf"@) {
                            Some(ss) => check_any(field, ss, 0, value, None),
                            None => Ok(()),
                        };
                        let r2 = match map_get(se, "items"@) {
                            Some(item_schema) => check_items(field, item_schema, items, 0),
                            None => Ok(()),
                        };
                        let r3 = match get_array(se, "prefixItems"@) {
                            Some(ss) => check_prefix(field, ss, items, 0),
                            None => Ok(()),
                        };
                        if r1 is Err {
                            r1
                        } else if r2 is Err {
                            r2
                        } else {
                            r3
                        }
                    },
                    _ => Ok(()),
                }
            },
            _ => Ok(()),
        }
    }
}

/// `anyOf`/`oneOf`: the value passes when some applicable branch accepts it
/// or no branch applies; otherwise the first applicable branch's error.
pub open spec fn check_any(
    field: Seq<char>,
    schemas: Seq<Json>,
    i: int,
    value: Json,
    first: Option<ToolErrorModel>,
) -> Result<(), ToolErrorModel>
    decreases schemas, schemas.len() - i,
{
    if i < 0 || i >= schemas.len() {
        match first {
            Some(e) => Err(e),
            None => Ok(()),
        }
    } else if closed_applies(schemas[i], value) {
        match closed_check(field, schemas[i], value) {
            Ok(()) => Ok(()),
            Err(e) => check_any(
                field,
                schemas,
                i + 1,
                value,
                if first is None {
                    Some(e)
                } else {
                    first
                },
            ),
        }
    } else {
        check_any(field, schemas, i + 1, value, first)
    }
}

/// `allOf`: every applicable branch must accept the value.
pub open spec fn check_all(field: Seq<char>, schemas: Seq<Json>, i: int, value: Json) -> Result<
    (),
    ToolErrorModel,
>
    decreases schemas, schemas.len() - i,
{
    if i < 0 || i >= schemas.len() {
        Ok(())
    } else if closed_applies(schemas[i], value) {
        match closed_check(field, schemas[i], value) {
            Ok(()) => check_all(field, schemas, i + 1, value),
            Err(e) => Err(e),
        }
    } else {
        check_all(field, schemas, i + 1, value)
    }
}

/// `items`: every array item from index `i` on obeys the item schema.
pub open spec fn check_items(field: Seq<char>, item_schema: Json, items: Seq<Json>, i: int) -> Result<
    (),
    ToolErrorModel,
>
    decreases item_schema, items.len() - i + 1,
{
    if i < 0 || i >= items.len() {
        Ok(())
    } else {
        match closed_check(indexed_field(field, i as nat), item_schema, items[i]) {
            Ok(()) => check_items(field, item_schema, items, i + 1),
            Err(e) => Err(e),
        }
    }
}

/// `prefixItems`: each item from index `i` on that has a positional schema
/// obeys it.
pub open spec fn check_prefix(field: Seq<char>, schemas: Seq<Json>, items: Seq<Json>, i: int) -> Result<
    (),
    ToolErrorModel,
>
    decreases schemas, schemas.len() - i,
{
    if i < 0 || i >= schemas.len() || i >= items.len() {
        Ok(())
    } else {
        match closed_check(indexed_field(field, i as nat), schemas[i], items[i]) {
            Ok(()) => check_prefix(field, schemas, items, i + 1),
            Err(e) => Err(e),
        }
    }
}

/// The closed-object rules: required properties present, no unknown
/// property when `additionalProperties` is `false`, no property given
/// twice, and each property's value valid against its schema.
pub open spec fn check_object(
    field: Seq<char>,
    se: Seq<(Seq<char>, Json)>,
    ve: Seq<(Seq<char>, Json)>,
) -> Result<(), ToolErrorModel>
    decreases se, ve.len() + 1,
{
    let pairs = wire_pairs(props_of(se));
    match check_required(field, pairs, ve, required_of(se), 0) {
        Err(e) => Err(e),
        Ok(()) => check_entries(field, se, ve, 0, Seq::empty()),
    }
}

/// The per-entry part of the closed-object rules, for the value's entries
/// from index `j` on, with `seen` the properties already given.
pub open spec fn check_entries(
    field: Seq<char>,
    se: Seq<(Seq<char>, Json)>,
    ve: Seq<(Seq<char>, Json)>,
    j: int,
    seen: Seq<Seq<char>>,
) -> Result<(), ToolErrorModel>
    decreases se, ve.len() - j,
{
    if j < 0 || j >= ve.len() {
        Ok(())
    } else {
        let name = ve[j].0;
        let nested = ve[j].1;
        let pairs = wire_pairs(props_of(se));
        proof {
            lemma_get_decreases(se, "additionalProperties"@);
            lemma_get_decreases(se, "properties"@);
        }
        match wire_lookup(pairs, name) {
            None => if rejects_additional(se) {
                Err(ToolErrorModel::UnknownField { field: nested_field(field, name) })
            } else {
                match additional_schema(se) {
                    Some(a) => match closed_check(nested_field(field, name), a, nested) {
                        Ok(()) => check_entries(field, se, ve, j + 1, seen),
                        Err(e) => Err(e),
                    },
                    None => check_entries(field, se, ve, j + 1, seen),
                }
            },
            Some(p) => if seen.contains(p) {
                Err(ToolErrorModel::DuplicateField { field: nested_field(field, p) })
            } else {
                proof {
                    lemma_get_decreases(props_of(se), p);
                    if let Some(ps) = map_get(props_of(se), p) {
                        assert(decreases_to!(se => props_of(se)));
                        assert(decreases_to!(props_of(se) => ps));
                        assert(decreases_to!(se => ps));
                    }
                }
                match map_get(props_of(se), p) {
                    Some(ps) => match closed_check(nested_field(field, p), ps, nested) {
                        Ok(()) => check_entries(field, se, ve, j + 1, seen.push(p)),
                        Err(e) => Err(e),
                    },
                    None => check_entries(field, se, ve, j + 1, seen.push(p)),
                }
            },
        }
    }
}


// ---------------------------------------------------------------------------
// Implementation
// ---------------------------------------------------------------------------
/// The model of a check result.
pub open spec fn result_model(r: Result<(), McpToolError>) -> Result<(), ToolErrorModel> {
    match r {
        Ok(()) => Ok(()),
        Err(e) => Err(e@),
    }
}

/// The models of a list of values.
pub open spec fn views_of(items: Seq<JsonValue>) -> Seq<Json> {
    Seq::new(items.len(), |i: int| items[i]@)
}

/// `parent.child`, or `child` when `parent` is empty.
pub fn nested_field_name(parent: &str, child: &str) -> (r: String)
    ensures
        r@ == nested_field(parent@, child@),
{
    if parent.unicode_len() == 0 {
        copy_str(child)
    } else {
        concat3(parent, ".", child)
    }
}

/// `field[index]`.
pub fn indexed_field_name(field: &str, index: usize) -> (r: String)
    ensures
        r@ == indexed_field(field@, index as nat),
{
    let digits = decimal_text(index as u64);
    let mut s = concat3(field, "[", digits.as_str());
    s.append("]");
    s
}

/// The string items of an array, in order.
pub fn strings_in(items: &Vec<JsonValue>) -> (r: Vec<String>)
    ensures
        Seq::new(r@.len(), |i: int| r@[i]@) == strings_of(views_of(items@)),
{
    let n = items.len();
    let mut out: Vec<String> = Vec::new();
    let mut i: usize = 0;
    while i < n
        invariant
            n == items@.len(),
            i <= n,
            Seq::new(out@.len(), |k: int| out@[k]@) == strings_of(views_of(items@.subrange(0, i as int))),
        decreases n - i,
    {
        proof {
            assert(views_of(items@.subrange(0, i as int + 1)).drop_last() =~= views_of(
                items@.subrange(0, i as int),
            ));
        }
        match &items[i] {
            JsonValue::String(s) => {
                out.push(copy_str(s.as_str()));
            },
            _ => {},
        }
        i = i + 1;
        assert(Seq::new(out@.len(), |k: int| out@[k]@) =~= strings_of(
            views_of(items@.subrange(0, i as int)),
        ));
    }
    assert(items@.subrange(0, n as int) =~= items@);
    out
}

/// The models of (wire name, property) pairs.
pub open spec fn pairs_view(p: Seq<(String, String)>) -> Seq<(Seq<char>, Seq<char>)> {
    Seq::new(p.len(), |i: int| (p[i].0@, p[i].1@))
}

/// The aliases a property schema declares.
pub fn aliases_in(property_schema: &JsonValue) -> (r: Vec<String>)
    ensures
        Seq::new(r@.len(), |i: int| r@[i]@) == aliases_of(property_schema@),
{
    match property_schema.as_object() {
        Some(pe) => match lookup_array(pe, "x-mcpAliases") {
            Some(a) => strings_in(a),
            None => {
                let r: Vec<String> = Vec::new();
                assert(Seq::new(r@.len(), |i: int| r@[i]@) =~= Seq::<Seq<char>>::empty());
                r
            },
        },
        None => {
            let r: Vec<String> = Vec::new();
            assert(Seq::new(r@.len(), |i: int| r@[i]@) =~= Seq::<Seq<char>>::empty());
            r
        },
    }
}

/// The wire names of an object schema's properties.
pub fn wire_names(props: &JsonMap) -> (r: Vec<(String, String)>)
    ensures
        pairs_view(r@) == wire_pairs(props@),
{
    let n = props.len();
    let mut out: Vec<(String, String)> = Vec::new();
    let mut i: usize = 0;
    while i < n
        invariant
            n == props@.len(),
            i <= n,
            pairs_view(out@) == wire_pairs(props@.subrange(0, i as int)),
        decreases n - i,
    {
        let name = props.key_at(i);
        let aliases = aliases_in(props.value_at(i));
        let ghost before = out@;
        out.push((copy_str(name.as_str()), copy_str(name.as_str())));
        let m = aliases.len();
        let mut k: usize = 0;
        while k < m
            invariant
                m == aliases@.len(),
                k <= m,
                out@.len() == before.len() + 1 + k,
                pairs_view(out@) == pairs_view(before).push((name@, name@)) + Seq::new(
                    k as nat,
                    |t: int| (aliases@[t]@, name@),
                ),
            decreases m - k,
        {
            let ghost prev = out@;
            out.push((copy_str(aliases[k].as_str()), copy_str(name.as_str())));
            assert(pairs_view(out@) =~= pairs_view(prev).push((aliases@[k as int]@, name@)));
            k = k + 1;
            assert(pairs_view(out@) =~= pairs_view(before).push((name@, name@)) + Seq::new(
                k as nat,
                |t: int| (aliases@[t]@, name@),
            ));
        }
        proof {
            let sub = props@.subrange(0, i as int + 1);
            assert(sub.drop_last() =~= props@.subrange(0, i as int));
            assert(sub.last() == props@[i as int]);
            let al = aliases_of(props@[i as int].1);
            assert(Seq::new(m as nat, |t: int| (aliases@[t]@, name@)) =~= Seq::new(
                al.len(),
                |t: int| (al[t], props@[i as int].0),
            ));
        }
        i = i + 1;
    }
    assert(props@.subrange(0, n as int) =~= props@);
    out
}

/// The property a wire name stands for.
pub fn lookup_wire<'a>(pairs: &'a Vec<(String, String)>, w: &str) -> (r: Option<&'a String>)
    ensures
        match r {
            Some(p) => wire_lookup(pairs_view(pairs@), w@) == Some(p@),
            None => wire_lookup(pairs_view(pairs@), w@) is None,
        },
{
    let mut i: usize = pairs.len();
    assert(pairs@.subrange(0, i as int) =~= pairs@);
    while i > 0
        invariant
            i <= pairs@.len(),
            wire_lookup(pairs_view(pairs@), w@) == wire_lookup(
                pairs_view(pairs@.subrange(0, i as int)),
                w@,
            ),
        decreases i,
    {
        let ghost sub = pairs_view(pairs@.subrange(0, i as int));
        if str_eq(pairs[i - 1].0.as_str(), w) {
            return Some(&pairs[i - 1].1);
        }
        i = i - 1;
        assert(sub.drop_last() =~= pairs_view(pairs@.subrange(0, i as int)));
    }
    None
}

fn required_is_present(pairs: &Vec<(String, String)>, value: &JsonMap, required: &str) -> (r: bool)
    ensures
        r == required_present(pairs_view(pairs@), value@, required@),
{
    if pairs.len() == 0 {
        value.contains_key(required)
    } else {
        let n = value.len();
        let mut i: usize = 0;
        while i < n
            invariant
                n == value@.len(),
                i <= n,
                pairs@.len() > 0,
                forall|j: int|
                    0 <= j < i ==> wire_lookup(pairs_view(pairs@), #[trigger] value@[j].0) != Some(
                        required@,
                    ),
            decreases n - i,
        {
            match lookup_wire(pairs, value.key_at(i).as_str()) {
                Some(p) => {
                    if str_eq(p.as_str(), required) {
                        return true;
                    }
                },
                None => {},
            }
            i = i + 1;
        }
        false
    }
}

fn required_check(
    field: &str,
    pairs: &Vec<(String, String)>,
    value: &JsonMap,
    required: &Vec<String>,
    i: usize,
) -> (r: Result<(), McpToolError>)
    requires
        i <= required@.len(),
    ensures
        result_model(r) == check_required(
            field@,
            pairs_view(pairs@),
            value@,
            Seq::new(required@.len(), |k: int| required@[k]@),
            i as int,
        ),
    decreases required@.len() - i,
{
    if i >= required.len() {
        Ok(())
    } else if !required_is_present(pairs, value, required[i].as_str()) {
        Err(McpToolError::MissingField { field: nested_field_name(field, required[i].as_str()) })
    } else {
        required_check(field, pairs, value, required, i + 1)
    }
}

fn contains_str(seen: &Vec<String>, s: &str) -> (r: bool)
    ensures
        r == Seq::new(seen@.len(), |k: int| seen@[k]@).contains(s@),
{
    let n = seen.len();
    let mut i: usize = 0;
    while i < n
        invariant
            n == seen@.len(),
            i <= n,
            forall|j: int| 0 <= j < i ==> seen@[j]@ != s@,
        decreases n - i,
    {
        if str_eq(seen[i].as_str(), s) {
            assert(Seq::new(seen@.len(), |k: int| seen@[k]@)[i as int] == s@);
            return true;
        }
        i = i + 1;
    }
    false
}

/// Validate `value` against the closed-object rules of `schema`, reporting
/// failures with field paths rooted at `field`.
pub fn validate_value_against_closed_schema(
    field: &str,
    schema: &JsonValue,
    value: &JsonValue,
) -> (r: Result<(), McpToolError>)
    ensures
        result_model(r) == closed_check(field@, schema@, value@),
    decreases schema@, 0nat,
{
    if value.is_null() {
        return Ok(());
    }
    let se = match schema.as_object() {
        Some(se) => se,
        None => {
            return Ok(());
        },
    };
    proof {
        lemma_get_decreases(se@, "anyOf"@);
        lemma_get_decreases(se@, "oneOf"@);
        lemma_get_decreases(se@, "allOf"@);
        lemma_get_decreases(se@, "items"@);
        lemma_get_decreases(se@, "prefixItems"@);
        assert(decreases_to!(schema@ => se@));
    }
    match value {
        JsonValue::Object(ve) => {
            proof {
                lemma_object_view(*ve);
            }
            match lookup_array(se, "anyOf") {
                Some(ss) => {
                    let r = any_check(field, ss, 0, value, None);
                    if r.is_err() {
                        return r;
                    }
                },
                None => {},
            }
            match lookup_array(se, "oneOf") {
                Some(ss) => {
                    let r = any_check(field, ss, 0, value, None);
                    if r.is_err() {
                        return r;
                    }
                },
                None => {},
            }
            match lookup_array(se, "allOf") {
                Some(ss) => {
                    let r = all_check(field, ss, 0, value);
                    if r.is_err() {
                        return r;
                    }
                },
                None => {},
            }
            object_check(field, se, ve)
        },
        JsonValue::Array(items) => {
            proof {
                lemma_array_view(*items);
            }
            match lookup_array(se, "anyOf") {
                Some(ss) => {
                    let r = any_check(field, ss, 0, value, None);
                    if r.is_err() {
                        return r;
                    }
                },
                None => {},
            }
            match se.get("items") {
                Some(item_schema) => {
                    let r = items_check(field, item_schema, items, 0);
                    if r.is_err() {
                        return r;
                    }
                },
                None => {},
            }
            match lookup_array(se, "prefixItems") {
                Some(ss) => prefix_check(field, ss, items, 0),
                None => Ok(()),
            }
        },
        _ => Ok(()),
    }
}

/// Whether a composite branch applies to `value` during closed validation.
pub fn closed_schema_applies_to_value(schema: &JsonValue, value: &JsonValue) -> (r: bool)
    ensures
        r == closed_applies(schema@, value@),
{
    let se = match schema.as_object() {
        Some(se) => se,
        None => {
            return false;
        },
    };
    if se.contains_key("anyOf") || se.contains_key("oneOf") || se.contains_key("allOf") {
        return true;
    }
    match value {
        JsonValue::Object(_) => schema_type_includes(se, "object") || se.contains_key("properties")
            || se.contains_key("required") || se.contains_key("additionalProperties"),
        JsonValue::Array(_) => schema_type_includes(se, "array") || se.contains_key("items")
            || se.contains_key("prefixItems"),
        _ => false,
    }
}

fn any_check(
    field: &str,
    schemas: &Vec<JsonValue>,
    i: usize,
    value: &JsonValue,
    first: Option<McpToolError>,
) -> (r: Result<(), McpToolError>)
    requires
        i <= schemas@.len(),
    ensures
        result_model(r) == check_any(
            field@,
            views_of(schemas@),
            i as int,
            value@,
            match first {
                Some(e) => Some(e@),
                None => None,
            },
        ),
    decreases views_of(schemas@), schemas@.len() - i,
{
    if i >= schemas.len() {
        match first {
            Some(e) => Err(e),
            None => Ok(()),
        }
    } else if closed_schema_applies_to_value(&schemas[i], value) {
        proof {
            assert(decreases_to!(views_of(schemas@) => views_of(schemas@)[i as int]));
        }
        match validate_value_against_closed_schema(field, &schemas[i], value) {
            Ok(()) => Ok(()),
            Err(e) => {
                let next = match first {
                    None => Some(e),
                    Some(f) => Some(f),
                };
                any_check(field, schemas, i + 1, value, next)
            },
        }
    } else {
        any_check(field, schemas, i + 1, value, first)
    }
}

fn all_check(field: &str, schemas: &Vec<JsonValue>, i: usize, value: &JsonValue) -> (r: Result<
    (),
    McpToolError,
>)
    requires
        i <= schemas@.len(),
    ensures
        result_model(r) == check_all(field@, views_of(schemas@), i as int, value@),
    decreases views_of(schemas@), schemas@.len() - i,
{
    if i >= schemas.len() {
        Ok(())
    } else if closed_schema_applies_to_value(&schemas[i], value) {
        proof {
            assert(decreases_to!(views_of(schemas@) => views_of(schemas@)[i as int]));
        }
        match validate_value_against_closed_schema(field, &schemas[i], value) {
            Ok(()) => all_check(field, schemas, i + 1, value),
            Err(e) => Err(e),
        }
    } else {
        all_check(field, schemas, i + 1, value)
    }
}

fn items_check(field: &str, item_schema: &JsonValue, items: &Vec<JsonValue>, i: usize) -> (r:
    Result<(), McpToolError>)
    requires
        i <= items@.len(),
    ensures
        result_model(r) == check_items(field@, item_schema@, views_of(items@), i as int),
    decreases item_schema@, items@.len() - i + 1,
{
    if i >= items.len() {
        Ok(())
    } else {
        let name = indexed_field_name(field, i);
        match validate_value_against_closed_schema(name.as_str(), item_schema, &items[i]) {
            Ok(()) => items_check(field, item_schema, items, i + 1),
            Err(e) => Err(e),
        }
    }
}

fn prefix_check(field: &str, schemas: &Vec<JsonValue>, items: &Vec<JsonValue>, i: usize) -> (r:
    Result<(), McpToolError>)
    requires
        i <= schemas@.len(),
    ensures
        result_model(r) == check_prefix(field@, views_of(schemas@), views_of(items@), i as int),
    decreases views_of(schemas@), schemas@.len() - i,
{
    if i >= schemas.len() || i >= items.len() {
        Ok(())
    } else {
        proof {
            assert(decreases_to!(views_of(schemas@) => views_of(schemas@)[i as int]));
        }
        let name = indexed_field_name(field, i);
        match validate_value_against_closed_schema(name.as_str(), &schemas[i], &items[i]) {
            Ok(()) => prefix_check(field, schemas, items, i + 1),
            Err(e) => Err(e),
        }
    }
}

/// The properties map of an object schema, if any.
fn properties_in(se: &JsonMap) -> (r: Option<&JsonMap>)
    ensures
        match r {
            Some(p) => props_of(se@) == p@ && get_object(se@, "properties"@) == Some(p@),
            None => props_of(se@) == Seq::<(Seq<char>, Json)>::empty() && get_object(
                se@,
                "properties"@,
            ) is None,
        },
{
    lookup_object(se, "properties")
}

fn object_check(field: &str, se: &JsonMap, ve: &JsonMap) -> (r: Result<(), McpToolError>)
    ensures
        result_model(r) == check_object(field@, se@, ve@),
    decreases se@, ve@.len() + 1,
{
    let pairs = match properties_in(se) {
        Some(p) => wire_names(p),
        None => {
            let v: Vec<(String, String)> = Vec::new();
            proof {
                reveal_with_fuel(wire_pairs, 1);
                assert(pairs_view(v@) =~= wire_pairs(Seq::<(Seq<char>, Json)>::empty()));
            }
            v
        },
    };
    let required = match lookup_array(se, "required") {
        Some(a) => strings_in(a),
        None => {
            let v: Vec<String> = Vec::new();
            v
        },
    };
    proof {
        assert(Seq::new(required@.len(), |k: int| required@[k]@) =~= crate::closed_schema::required_of(se@));
    }
    match required_check(field, &pairs, ve, &required, 0) {
        Err(e) => Err(e),
        Ok(()) => {
            let seen: Vec<String> = Vec::new();
            assert(Seq::new(seen@.len(), |k: int| seen@[k]@) =~= Seq::<Seq<char>>::empty());
            entries_check(field, se, ve, &pairs, 0, seen)
        },
    }
}

fn entries_check(
    field: &str,
    se: &JsonMap,
    ve: &JsonMap,
    pairs: &Vec<(String, String)>,
    j: usize,
    seen: Vec<String>,
) -> (r: Result<(), McpToolError>)
    requires
        j <= ve@.len(),
        pairs_view(pairs@) == wire_pairs(props_of(se@)),
    ensures
        result_model(r) == check_entries(
            field@,
            se@,
            ve@,
            j as int,
            Seq::new(seen@.len(), |k: int| seen@[k]@),
        ),
    decreases se@, ve@.len() - j,
{
    if j >= ve.len() {
        return Ok(());
    }
    let name = ve.key_at(j);
    let nested = ve.value_at(j);
    proof {
        lemma_get_decreases(se@, "additionalProperties"@);
        lemma_get_decreases(se@, "properties"@);
    }
    match lookup_wire(pairs, name.as_str()) {
        None => {
            let additional = se.get("additionalProperties");
            match additional {
                Some(JsonValue::Bool(false)) => {
                    return Err(
                        McpToolError::UnknownField {
                            field: nested_field_name(field, name.as_str()),
                        },
                    );
                },
                Some(JsonValue::Bool(_)) => entries_check(field, se, ve, pairs, j + 1, seen),
                None => entries_check(field, se, ve, pairs, j + 1, seen),
                Some(a) => {
                    let path = nested_field_name(field, name.as_str());
                    match validate_value_against_closed_schema(path.as_str(), a, nested) {
                        Ok(()) => entries_check(field, se, ve, pairs, j + 1, seen),
                        Err(e) => Err(e),
                    }
                },
            }
        },
        Some(p) => {
            if contains_str(&seen, p.as_str()) {
                return Err(
                    McpToolError::DuplicateField { field: nested_field_name(field, p.as_str()) },
                );
            }
            let ghost seen_before = Seq::new(seen@.len(), |k: int| seen@[k]@);
            let mut seen = seen;
            seen.push(copy_str(p.as_str()));
            assert(Seq::new(seen@.len(), |k: int| seen@[k]@) =~= seen_before.push(p@));
            match properties_in(se) {
                Some(props) => {
                    proof {
                        lemma_get_decreases(props@, p@);
                        if let Some(ps) = map_get(props@, p@) {
                            assert(decreases_to!(se@ => props@));
                            assert(decreases_to!(props@ => ps));
                            assert(decreases_to!(se@ => ps));
                        }
                    }
                    match props.get(p.as_str()) {
                        Some(ps) => {
                            let path = nested_field_name(field, p.as_str());
                            match validate_value_against_closed_schema(path.as_str(), ps, nested) {
                                Ok(()) => entries_check(field, se, ve, pairs, j + 1, seen),
                                Err(e) => Err(e),
                            }
                        },
                        None => entries_check(field, se, ve, pairs, j + 1, seen),
                    }
                },
                None => entries_check(field, se, ve, pairs, j + 1, seen),
            }
        },
    }
}


proof fn lemma_items_fail_from(
    field: Seq<char>,
    item_schema: Json,
    items: Seq<Json>,
    j: int,
    i: int,
)
    requires
        0 <= j <= i < items.len(),
        closed_check(indexed_field(field, i as nat), item_schema, items[i]) is Err,
    ensures
        check_items(field, item_schema, items, j) is Err,
        (forall|k: int| j <= k < i ==> (#[trigger] closed_check(indexed_field(field, k as nat), item_schema, items[k])) is Ok)
            ==> check_items(field, item_schema, items, j) == closed_check(
            indexed_field(field, i as nat),
            item_schema,
            items[i],
        ),
    decreases i - j,
{
    if j < i {
        lemma_items_fail_from(field, item_schema, items, j + 1, i);
        if forall|k: int| j <= k < i ==> (#[trigger] closed_check(indexed_field(field, k as nat), item_schema, items[k])) is Ok {
            assert(closed_check(indexed_field(field, j as nat), item_schema, items[j]) is Ok);
        }
    }
}

proof fn lemma_items_pass_from(field: Seq<char>, item_schema: Json, items: Seq<Json>, j: int)
    requires
        0 <= j <= items.len(),
        forall|k: int| j <= k < items.len() ==> (#[trigger] closed_check(indexed_field(field, k as nat), item_schema, items[k])) is Ok,
    ensures
        check_items(field, item_schema, items, j) is Ok,
    decreases items.len() - j,
{
    if j < items.len() {
        assert(closed_check(indexed_field(field, j as nat), item_schema, items[j]) is Ok);
        lemma_items_pass_from(field, item_schema, items, j + 1);
    }
}

/// Array values are checked item by item against the schema's `items`
/// schema, each at the path `field[index]`: if any item fails, the whole
/// value fails; without `anyOf`, the failure is that of the first failing
/// item; and without `anyOf` and `prefixItems`, an array whose items all
/// pass is accepted.
pub proof fn lemma_closed_check_checks_every_item(
    field: Seq<char>,
    se: Seq<(Seq<char>, Json)>,
    item_schema: Json,
    items: Seq<Json>,
    i: int,
)
    requires
        map_get(se, "items"@) == Some(item_schema),
        0 <= i <= items.len(),
    ensures
        i < items.len() && closed_check(indexed_field(field, i as nat), item_schema, items[i]) is Err
            ==> closed_check(field, Json::Object(se), Json::Array(items)) is Err,
        i < items.len() && closed_check(indexed_field(field, i as nat), item_schema, items[i]) is Err
            && get_array(se, "anyOf"@) is None && (forall|k: int|
            0 <= k < i ==> (#[trigger] closed_check(indexed_field(field, k as nat), item_schema, items[k])) is Ok)
            ==> closed_check(field, Json::Object(se), Json::Array(items)) == closed_check(
            indexed_field(field, i as nat),
            item_schema,
            items[i],
        ),
        i == items.len() && get_array(se, "anyOf"@) is None && get_array(se, "prefixItems"@) is None
            && (forall|k: int|
            0 <= k < items.len() ==> (#[trigger] closed_check(indexed_field(field, k as nat), item_schema, items[k])) is Ok)
            ==> closed_check(field, Json::Object(se), Json::Array(items)) is Ok,
{
    if i < items.len() && closed_check(indexed_field(field, i as nat), item_schema, items[i]) is Err {
        lemma_items_fail_from(field, item_schema, items, 0, i);
    }
    if i == items.len() && (forall|k: int|
        0 <= k < items.len() ==> (#[trigger] closed_check(indexed_field(field, k as nat), item_schema, items[k])) is Ok) {
        lemma_items_pass_from(field, item_schema, items, 0);
    }
}


proof fn lemma_entries_reject_unknown(
    field: Seq<char>,
    se: Seq<(Seq<char>, Json)>,
    ve: Seq<(Seq<char>, Json)>,
    j: int,
    seen: Seq<Seq<char>>,
    u: int,
)
    requires
        0 <= j <= u < ve.len(),
        rejects_additional(se),
        wire_lookup(wire_pairs(props_of(se)), ve[u].0) is None,
    ensures
        check_entries(field, se, ve, j, seen) is Err,
    decreases u - j,
{
    if j < u {
        let name = ve[j].0;
        match wire_lookup(wire_pairs(props_of(se)), name) {
            None => {},
            Some(p) => {
                if !seen.contains(p) {
                    lemma_entries_reject_unknown(field, se, ve, j + 1, seen.push(p), u);
                }
            },
        }
    }
}

/// Under `additionalProperties: false`, an object value holding a key that
/// names no property (by name or alias) is rejected; as array items are
/// checked against `items`, this rejects such a key inside an array element.
pub proof fn lemma_closed_object_rejects_unknown_key(
    field: Seq<char>,
    se: Seq<(Seq<char>, Json)>,
    ve: Seq<(Seq<char>, Json)>,
    u: int,
)
    requires
        rejects_additional(se),
        0 <= u < ve.len(),
        wire_lookup(wire_pairs(props_of(se)), ve[u].0) is None,
    ensures
        closed_check(field, Json::Object(se), Json::Object(ve)) is Err,
{
    lemma_entries_reject_unknown(field, se, ve, 0, Seq::empty(), u);
}


proof fn lemma_entries_fail_on_bad_value(
    field: Seq<char>,
    se: Seq<(Seq<char>, Json)>,
    ve: Seq<(Seq<char>, Json)>,
    j: int,
    seen: Seq<Seq<char>>,
    u: int,
    p: Seq<char>,
    ps: Json,
)
    requires
        0 <= j <= u < ve.len(),
        wire_lookup(wire_pairs(props_of(se)), ve[u].0) == Some(p),
        map_get(props_of(se), p) == Some(ps),
        closed_check(nested_field(field, p), ps, ve[u].1) is Err,
    ensures
        check_entries(field, se, ve, j, seen) is Err,
    decreases u - j,
{
    if j < u {
        match wire_lookup(wire_pairs(props_of(se)), ve[j].0) {
            None => {},
            Some(q) => {
                if !seen.contains(q) {
                    lemma_entries_fail_on_bad_value(field, se, ve, j + 1, seen.push(q), u, p, ps);
                }
            },
        }
        lemma_entries_fail_on_bad_value(field, se, ve, j + 1, seen, u, p, ps);
    }
}

proof fn lemma_entries_fail_on_seen(
    field: Seq<char>,
    se: Seq<(Seq<char>, Json)>,
    ve: Seq<(Seq<char>, Json)>,
    j: int,
    seen: Seq<Seq<char>>,
    u: int,
    p: Seq<char>,
)
    requires
        0 <= j <= u < ve.len(),
        seen.contains(p),
        wire_lookup(wire_pairs(props_of(se)), ve[u].0) == Some(p),
    ensures
        check_entries(field, se, ve, j, seen) is Err,
    decreases u - j,
{
    if j < u {
        lemma_entries_fail_on_seen(field, se, ve, j + 1, seen, u, p);
        match wire_lookup(wire_pairs(props_of(se)), ve[j].0) {
            None => {},
            Some(q) => {
                let s2 = seen.push(q);
                let k = choose|k: int| 0 <= k < seen.len() && seen[k] == p;
                assert(s2[k] == p);
                lemma_entries_fail_on_seen(field, se, ve, j + 1, s2, u, p);
            },
        }
    }
}

proof fn lemma_entries_fail_on_duplicate(
    field: Seq<char>,
    se: Seq<(Seq<char>, Json)>,
    ve: Seq<(Seq<char>, Json)>,
    j: int,
    seen: Seq<Seq<char>>,
    f: int,
    u: int,
    p: Seq<char>,
)
    requires
        0 <= j <= f < u < ve.len(),
        wire_lookup(wire_pairs(props_of(se)), ve[f].0) == Some(p),
        wire_lookup(wire_pairs(props_of(se)), ve[u].0) == Some(p),
    ensures
        check_entries(field, se, ve, j, seen) is Err,
    decreases f - j,
{
    match wire_lookup(wire_pairs(props_of(se)), ve[j].0) {
        None => {
            if j < f {
                lemma_entries_fail_on_duplicate(field, se, ve, j + 1, seen, f, u, p);
            }
        },
        Some(q) => {
            if !seen.contains(q) {
                let s2 = seen.push(q);
                if j < f {
                    lemma_entries_fail_on_duplicate(field, se, ve, j + 1, s2, f, u, p);
                } else {
                    assert(s2[seen.len() as int] == p);
                    lemma_entries_fail_on_seen(field, se, ve, j + 1, s2, u, p);
                }
            }
        },
    }
}

proof fn lemma_required_missing(
    field: Seq<char>,
    pairs: Seq<(Seq<char>, Seq<char>)>,
    ve: Seq<(Seq<char>, Json)>,
    required: Seq<Seq<char>>,
    i: int,
    m: int,
)
    requires
        0 <= i <= m < required.len(),
        !required_present(pairs, ve, required[m]),
    ensures
        check_required(field, pairs, ve, required, i) is Err,
    decreases m - i,
{
    if i < m {
        lemma_required_missing(field, pairs, ve, required, i + 1, m);
    }
}

proof fn lemma_object_fails_when_entries_fail(
    field: Seq<char>,
    se: Seq<(Seq<char>, Json)>,
    ve: Seq<(Seq<char>, Json)>,
)
    requires
        check_object(field, se, ve) is Err,
    ensures
        closed_check(field, Json::Object(se), Json::Object(ve)) is Err,
{
}

/// The closed-object rules on an object value, each of which makes the whole
/// check fail: a required property given under none of its spellings; a
/// property given twice (under its name and an alias, or two aliases); a
/// property whose value fails the property's own schema, checked at the
/// path `field.property`.
pub proof fn lemma_closed_object_rules(
    field: Seq<char>,
    se: Seq<(Seq<char>, Json)>,
    ve: Seq<(Seq<char>, Json)>,
    r: Seq<char>,
    f: int,
    u: int,
    p: Seq<char>,
    ps: Json,
)
    ensures
        required_of(se).contains(r) && !required_present(wire_pairs(props_of(se)), ve, r)
            ==> closed_check(field, Json::Object(se), Json::Object(ve)) is Err,
        0 <= f < u < ve.len() && wire_lookup(wire_pairs(props_of(se)), ve[f].0) == Some(p)
            && wire_lookup(wire_pairs(props_of(se)), ve[u].0) == Some(p) ==> closed_check(
            field,
            Json::Object(se),
            Json::Object(ve),
        ) is Err,
        0 <= u < ve.len() && wire_lookup(wire_pairs(props_of(se)), ve[u].0) == Some(p) && map_get(
            props_of(se),
            p,
        ) == Some(ps) && closed_check(nested_field(field, p), ps, ve[u].1) is Err
            ==> closed_check(field, Json::Object(se), Json::Object(ve)) is Err,
{
    let pairs = wire_pairs(props_of(se));
    if required_of(se).contains(r) && !required_present(pairs, ve, r) {
        let m = choose|m: int| 0 <= m < required_of(se).len() && required_of(se)[m] == r;
        lemma_required_missing(field, pairs, ve, required_of(se), 0, m);
        lemma_object_fails_when_entries_fail(field, se, ve);
    }
    if 0 <= f < u < ve.len() && wire_lookup(pairs, ve[f].0) == Some(p) && wire_lookup(
        pairs,
        ve[u].0,
    ) == Some(p) {
        lemma_entries_fail_on_duplicate(field, se, ve, 0, Seq::empty(), f, u, p);
        lemma_object_fails_when_entries_fail(field, se, ve);
    }
    if 0 <= u < ve.len() && wire_lookup(pairs, ve[u].0) == Some(p) && map_get(props_of(se), p)
        == Some(ps) && closed_check(nested_field(field, p), ps, ve[u].1) is Err {
        lemma_entries_fail_on_bad_value(field, se, ve, 0, Seq::empty(), u, p, ps);
        lemma_object_fails_when_entries_fail(field, se, ve);
    }
}

/// Positional `prefixItems` schemas are checked too: an item that fails the
/// schema at its position, at the path `field[index]`, makes the whole
/// array fail.
pub proof fn lemma_closed_check_checks_prefix_items(
    field: Seq<char>,
    se: Seq<(Seq<char>, Json)>,
    schemas: Seq<Json>,
    items: Seq<Json>,
    i: int,
)
    requires
        get_array(se, "prefixItems"@) == Some(schemas),
        0 <= i < schemas.len(),
        i < items.len(),
        closed_check(indexed_field(field, i as nat), schemas[i], items[i]) is Err,
    ensures
        closed_check(field, Json::Object(se), Json::Array(items)) is Err,
{
    lemma_prefix_fail_from(field, schemas, items, 0, i);
}

proof fn lemma_prefix_fail_from(field: Seq<char>, schemas: Seq<Json>, items: Seq<Json>, j: int, i: int)
    requires
        0 <= j <= i < schemas.len(),
        i < items.len(),
        closed_check(indexed_field(field, i as nat), schemas[i], items[i]) is Err,
    ensures
        check_prefix(field, schemas, items, j) is Err,
    decreases i - j,
{
    if j < i {
        lemma_prefix_fail_from(field, schemas, items, j + 1, i);
    }
}

} // verus!
