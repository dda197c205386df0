//! Reading JSON Schema keywords out of schema objects.

use crate::json::{
    has_key, key_index, lemma_first_key_index, map_get, Json, JsonMap, JsonValue,
};
use crate::text::decimal;
use vstd::prelude::*;

verus! {

/// The array stored under `k`, if the entry is an array.
pub open spec fn get_array(e: Seq<(Seq<char>, Json)>, k: Seq<char>) -> Option<Seq<Json>> {
    match map_get(e, k) {
        Some(Json::Array(a)) => Some(a),
        _ => None,
    }
}

/// The object stored under `k`, if the entry is an object.
pub open spec fn get_object(e: Seq<(Seq<char>, Json)>, k: Seq<char>) -> Option<
    Seq<(Seq<char>, Json)>,
> {
    match map_get(e, k) {
        Some(Json::Object(o)) => Some(o),
        _ => None,
    }
}

/// The string stored under `k`, if the entry is a string.
pub open spec fn get_str(e: Seq<(Seq<char>, Json)>, k: Seq<char>) -> Option<Seq<char>> {
    match map_get(e, k) {
        Some(Json::String(s)) => Some(s),
        _ => None,
    }
}

/// The string items of an array, in order (non-strings are skipped).
pub open spec fn strings_of(a: Seq<Json>) -> Seq<Seq<char>>
    decreases a.len(),
{
    if a.len() == 0 {
        Seq::empty()
    } else {
        let rest = strings_of(a.drop_last());
        match a.last() {
            Json::String(s) => rest.push(s),
            _ => rest,
        }
    }
}

/// Whether the schema's `type` keyword names `expected`, either as the
/// string value or as one of the strings of an array value.
pub open spec fn type_includes(e: Seq<(Seq<char>, Json)>, expected: Seq<char>) -> bool {
    match map_get(e, "type"@) {
        Some(Json::String(v)) => v == expected,
        Some(Json::Array(vs)) => exists|i: int| 0 <= i < vs.len() && vs[i] == Json::String(expected),
        _ => false,
    }
}

/// `parent.child`, or `child` when there is no parent.
pub open spec fn nested_field(parent: Seq<char>, child: Seq<char>) -> Seq<char> {
    if parent.len() == 0 {
        child
    } else {
        parent + "."@ + child
    }
}

/// `field[index]`.
pub open spec fn indexed_field(field: Seq<char>, index: nat) -> Seq<char> {
    field + "["@ + decimal(index) + "]"@
}

/// A value stored in an object is a structural part of that object.
pub proof fn lemma_get_decreases(e: Seq<(Seq<char>, Json)>, k: Seq<char>)
    ensures
        map_get(e, k) matches Some(v) ==> decreases_to!(Json::Object(e) => v),
        map_get(e, k) matches Some(Json::Array(a)) ==> decreases_to!(Json::Object(e) => a),
        map_get(e, k) matches Some(Json::Object(o)) ==> decreases_to!(Json::Object(e) => o),
        map_get(e, k) matches Some(v) ==> decreases_to!(e => v),
        map_get(e, k) matches Some(Json::Object(o)) ==> decreases_to!(e => o),
{
    if has_key(e, k) {
        lemma_first_key_index(e, k);
        let i = key_index(e, k);
        let o = Json::Object(e);
        assert(decreases_to!(o => o->Object_0));
        assert(decreases_to!(e => e[i]));
        assert(decreases_to!(e[i] => e[i].1));
        let v = e[i].1;
        if let Json::Array(a) = v {
            assert(decreases_to!(v => a));
        }
        if let Json::Object(o) = v {
            assert(decreases_to!(v => o));
        }
    }
}

/// Exec: `schema.get(k).and_then(Value::as_array)`.
pub fn lookup_array<'a>(schema: &'a JsonMap, k: &str) -> (r: Option<&'a Vec<JsonValue>>)
    ensures
        match r {
            Some(items) => get_array(schema@, k@) == Some(
                Seq::new(items@.len(), |i: int| items@[i]@),
            ),
            None => get_array(schema@, k@) is None,
        },
{
    match schema.get(k) {
        Some(v) => v.as_array(),
        None => None,
    }
}

/// Exec: `schema.get(k).and_then(Value::as_object)`.
pub fn lookup_object<'a>(schema: &'a JsonMap, k: &str) -> (r: Option<&'a JsonMap>)
    ensures
        match r {
            Some(o) => get_object(schema@, k@) == Some(o@),
            None => get_object(schema@, k@) is None,
        },
{
    match schema.get(k) {
        Some(v) => v.as_object(),
        None => None,
    }
}

/// Exec: `schema.get(k).and_then(Value::as_str)`.
pub fn lookup_str<'a>(schema: &'a JsonMap, k: &str) -> (r: Option<&'a str>)
    ensures
        match r {
            Some(s) => get_str(schema@, k@) == Some(s@),
            None => get_str(schema@, k@) is None,
        },
{
    match schema.get(k) {
        Some(v) => v.as_str(),
        None => None,
    }
}

/// Exec: the schema's `type` keyword names `expected`.
pub fn schema_type_includes(schema: &JsonMap, expected: &str) -> (r: bool)
    ensures
        r == type_includes(schema@, expected@),
{
    match schema.get("type") {
        Some(JsonValue::String(v)) => crate::json::str_eq(v.as_str(), expected),
        Some(JsonValue::Array(values)) => {
            proof {
                crate::json::lemma_array_view(*values);
            }
            let n = values.len();
            let mut i: usize = 0;
            while i < n
                invariant
                    n == values@.len(),
                    i <= n,
                    map_get(schema@, "type"@) == Some(
                        Json::Array(Seq::new(values@.len(), |j: int| values@[j]@)),
                    ),
                    forall|j: int| 0 <= j < i ==> values@[j]@ != Json::String(expected@),
                decreases n - i,
            {
                match &values[i] {
                    JsonValue::String(s) => {
                        if crate::json::str_eq(s.as_str(), expected) {
                            assert(Seq::new(values@.len(), |j: int| values@[j]@)[i as int]
                                == Json::String(expected@));
                            return true;
                        }
                    },
                    _ => {},
                }
                i = i + 1;
            }
            false
        },
        _ => false,
    }
}

} // verus!
