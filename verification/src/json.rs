//! JSON values as the library holds them, with their mathematical model.
//!
//! Objects keep their entries in ascending key order, as a JSON object read
//! into a sorted map does, so iterating an object visits keys in order.

use vstd::prelude::*;
use vstd::string::*;

verus! {

/// A JSON number: a non-negative integer, a negative integer, or a finite
/// non-integer number carried as its decimal text.
#[derive(Debug)]
pub enum JsonNumber {
    PosInt(u64),
    NegInt(i64),
    Float(String),
}

/// Mathematical model of a JSON number.
pub enum NumberModel {
    PosInt(u64),
    NegInt(i64),
    Float(Seq<char>),
}

/// Mathematical model of a JSON value. Object entries are a sequence of
/// key/value pairs.
pub enum Json {
    Null,
    Bool(bool),
    Number(NumberModel),
    String(Seq<char>),
    Array(Seq<Json>),
    Object(Seq<(Seq<char>, Json)>),
}

/// A JSON value.
#[derive(Debug)]
pub enum JsonValue {
    Null,
    Bool(bool),
    Number(JsonNumber),
    String(String),
    Array(Vec<JsonValue>),
    Object(JsonMap),
}

/// A JSON object: key/value entries, kept in ascending key order by
/// [`JsonMap::insert`].
#[derive(Debug)]
pub struct JsonMap {
    entries: Vec<(String, JsonValue)>,
}

impl View for JsonNumber {
    type V = NumberModel;

    open spec fn view(&self) -> NumberModel {
        match self {
            JsonNumber::PosInt(n) => NumberModel::PosInt(*n),
            JsonNumber::NegInt(n) => NumberModel::NegInt(*n),
            JsonNumber::Float(t) => NumberModel::Float(t@),
        }
    }
}

impl JsonMap {
    /// The entries of the map, in order.
    pub closed spec fn spec_entries(&self) -> Seq<(String, JsonValue)> {
        self.entries@
    }

    /// The keys of a map always ascend strictly: each key occurs once, and
    /// the entries are in key order.
    #[verifier::type_invariant]
    pub open spec fn keys_in_order(&self) -> bool {
        keys_ascending(self@)
    }
}

/// The model of a JSON value.
pub open spec fn json_view(v: JsonValue) -> Json
    decreases v,
{
    match v {
        JsonValue::Null => Json::Null,
        JsonValue::Bool(b) => Json::Bool(b),
        JsonValue::Number(n) => Json::Number(n@),
        JsonValue::String(s) => Json::String(s@),
        JsonValue::Array(items) => Json::Array(
            Seq::new(
                items@.len(),
                |i: int|
                    if 0 <= i < items@.len() {
                        json_view(items@[i])
                    } else {
                        Json::Null
                    },
            ),
        ),
        JsonValue::Object(m) => Json::Object(
            Seq::new(
                m.spec_entries().len(),
                |i: int|
                    if 0 <= i < m.spec_entries().len() {
                        (m.spec_entries()[i].0@, json_view(m.spec_entries()[i].1))
                    } else {
                        (Seq::empty(), Json::Null)
                    },
            ),
        ),
    }
}

impl View for JsonValue {
    type V = Json;

    open spec fn view(&self) -> Json {
        json_view(*self)
    }
}

/// The model of a map's entries.
pub open spec fn entries_view(e: Seq<(String, JsonValue)>) -> Seq<(Seq<char>, Json)> {
    Seq::new(e.len(), |i: int| (e[i].0@, json_view(e[i].1)))
}

impl View for JsonMap {
    type V = Seq<(Seq<char>, Json)>;

    open spec fn view(&self) -> Seq<(Seq<char>, Json)> {
        entries_view(self.spec_entries())
    }
}

/// The view of an object value is the view of its map.
pub broadcast proof fn lemma_object_view(m: JsonMap)
    ensures
        #[trigger] JsonValue::Object(m)@ == Json::Object(m@),
{
    assert(JsonValue::Object(m)@->Object_0 =~= m@);
}

/// The view of an array value is the sequence of its items' views.
pub proof fn lemma_array_view(items: Vec<JsonValue>)
    ensures
        JsonValue::Array(items)@ == Json::Array(Seq::new(items@.len(), |i: int| items@[i]@)),
{
    assert(JsonValue::Array(items)@->Array_0 =~= Seq::new(items@.len(), |i: int| items@[i]@));
}

// ---------------------------------------------------------------------------
// Keys and ordering
// ---------------------------------------------------------------------------
/// Lexicographic order on character sequences, the order of `str`.
pub open spec fn seq_lt(a: Seq<char>, b: Seq<char>) -> bool
    decreases a.len(),
{
    if b.len() == 0 {
        false
    } else if a.len() == 0 {
        true
    } else if a[0] != b[0] {
        a[0] < b[0]
    } else {
        seq_lt(a.drop_first(), b.drop_first())
    }
}

/// No string sorts before itself.
pub proof fn lemma_seq_lt_irreflexive(a: Seq<char>)
    ensures
        !seq_lt(a, a),
    decreases a.len(),
{
    if a.len() > 0 {
        lemma_seq_lt_irreflexive(a.drop_first());
    }
}

/// Of two different strings, one sorts before the other.
pub proof fn lemma_seq_lt_total(a: Seq<char>, b: Seq<char>)
    requires
        a != b,
    ensures
        seq_lt(a, b) || seq_lt(b, a),
    decreases a.len(),
{
    if a.len() > 0 && b.len() > 0 && a[0] == b[0] {
        if a.drop_first() =~= b.drop_first() {
            assert(a =~= b) by {
                assert forall|i: int| 0 <= i < a.len() implies a[i] == b[i] by {
                    if i > 0 {
                        assert(a[i] == a.drop_first()[i - 1]);
                        assert(b[i] == b.drop_first()[i - 1]);
                    }
                }
            }
        } else {
            lemma_seq_lt_total(a.drop_first(), b.drop_first());
        }
    } else if a.len() == 0 && b.len() == 0 {
        assert(a =~= b);
    } else if a.len() > 0 && b.len() > 0 {
        assert(a[0] != b[0]);
    }
}

/// The order on strings is transitive.
pub proof fn lemma_seq_lt_transitive(a: Seq<char>, b: Seq<char>, c: Seq<char>)
    requires
        seq_lt(a, b),
        seq_lt(b, c),
    ensures
        seq_lt(a, c),
    decreases a.len(),
{
    if a.len() > 0 && b.len() > 0 && c.len() > 0 && a[0] == b[0] && b[0] == c[0] {
        lemma_seq_lt_transitive(a.drop_first(), b.drop_first(), c.drop_first());
    }
}

/// A string sorting before another differs from it.
pub proof fn lemma_seq_lt_asymmetric(a: Seq<char>, b: Seq<char>)
    requires
        seq_lt(a, b),
    ensures
        !seq_lt(b, a),
        a != b,
    decreases a.len(),
{
    if a.len() > 0 && b.len() > 0 && a[0] == b[0] {
        lemma_seq_lt_asymmetric(a.drop_first(), b.drop_first());
    }
    if a == b {
        lemma_seq_lt_irreflexive(a);
    }
}

/// Character-wise equality of two strings.
pub fn str_eq(a: &str, b: &str) -> (r: bool)
    ensures
        r == (a@ == b@),
{
    let n = a.unicode_len();
    let m = b.unicode_len();
    if n != m {
        return false;
    }
    let mut i: usize = 0;
    while i < n
        invariant
            n == a@.len(),
            m == b@.len(),
            n == m,
            i <= n,
            forall|j: int| 0 <= j < i ==> a@[j] == b@[j],
        decreases n - i,
    {
        if a.get_char(i) != b.get_char(i) {
            return false;
        }
        i = i + 1;
    }
    assert(a@ =~= b@);
    true
}

proof fn lemma_seq_lt_skip(a: Seq<char>, b: Seq<char>, i: int)
    requires
        0 <= i <= a.len(),
        i <= b.len(),
        forall|j: int| 0 <= j < i ==> a[j] == b[j],
    ensures
        seq_lt(a, b) == seq_lt(a.skip(i), b.skip(i)),
    decreases i,
{
    if i > 0 {
        assert(a.skip(1).skip(i - 1) =~= a.skip(i));
        assert(b.skip(1).skip(i - 1) =~= b.skip(i));
        assert(a.drop_first() =~= a.skip(1));
        assert(b.drop_first() =~= b.skip(1));
        lemma_seq_lt_skip(a.skip(1), b.skip(1), i - 1);
    } else {
        assert(a.skip(0) =~= a);
        assert(b.skip(0) =~= b);
    }
}

/// Whether `a` sorts strictly before `b`.
pub fn str_lt(a: &str, b: &str) -> (r: bool)
    ensures
        r == seq_lt(a@, b@),
{
    let n = a.unicode_len();
    let m = b.unicode_len();
    let mut i: usize = 0;
    while i < n && i < m
        invariant
            n == a@.len(),
            m == b@.len(),
            i <= n,
            i <= m,
            forall|j: int| 0 <= j < i ==> a@[j] == b@[j],
        decreases n - i,
    {
        let ca = a.get_char(i);
        let cb = b.get_char(i);
        if ca != cb {
            proof {
                lemma_seq_lt_skip(a@, b@, i as int);
                assert(a@.skip(i as int)[0] == ca);
                assert(b@.skip(i as int)[0] == cb);
            }
            return ca < cb;
        }
        i = i + 1;
    }
    proof {
        lemma_seq_lt_skip(a@, b@, i as int);
    }
    i < m
}

/// A copy of a string.
pub fn copy_str(s: &str) -> (r: String)
    ensures
        r@ == s@,
{
    String::from_str(s)
}

// ---------------------------------------------------------------------------
// Entry lookup model
// ---------------------------------------------------------------------------
/// Whether `i` is the first index whose key is `k`.
pub open spec fn is_first_key_index(e: Seq<(Seq<char>, Json)>, k: Seq<char>, i: int) -> bool {
    &&& 0 <= i < e.len()
    &&& e[i].0 == k
    &&& forall|j: int| 0 <= j < i ==> e[j].0 != k
}

/// Whether some entry has key `k`.
pub open spec fn has_key(e: Seq<(Seq<char>, Json)>, k: Seq<char>) -> bool {
    exists|i: int| 0 <= i < e.len() && e[i].0 == k
}

/// The index of the first entry with key `k`, or -1.
pub open spec fn key_index(e: Seq<(Seq<char>, Json)>, k: Seq<char>) -> int {
    if has_key(e, k) {
        choose|i: int| is_first_key_index(e, k, i)
    } else {
        -1
    }
}

/// The value stored under `k` (its first occurrence).
pub open spec fn map_get(e: Seq<(Seq<char>, Json)>, k: Seq<char>) -> Option<Json> {
    if has_key(e, k) {
        Some(e[key_index(e, k)].1)
    } else {
        None
    }
}

/// Existence of a first index when some index has the key.
pub proof fn lemma_first_key_index(e: Seq<(Seq<char>, Json)>, k: Seq<char>)
    requires
        has_key(e, k),
    ensures
        is_first_key_index(e, k, key_index(e, k)),
{
    let w = choose|i: int| 0 <= i < e.len() && e[i].0 == k;
    lemma_least_index(e, k, w);
}

proof fn lemma_least_index(e: Seq<(Seq<char>, Json)>, k: Seq<char>, w: int)
    requires
        0 <= w < e.len(),
        e[w].0 == k,
    ensures
        exists|i: int| is_first_key_index(e, k, i),
    decreases w,
{
    if forall|j: int| 0 <= j < w ==> e[j].0 != k {
        assert(is_first_key_index(e, k, w));
    } else {
        let j = choose|j: int| 0 <= j < w && e[j].0 == k;
        lemma_least_index(e, k, j);
    }
}

/// The first index with a key is unique.
pub proof fn lemma_first_key_index_unique(e: Seq<(Seq<char>, Json)>, k: Seq<char>, i: int)
    requires
        is_first_key_index(e, k, i),
    ensures
        has_key(e, k),
        key_index(e, k) == i,
{
    lemma_first_key_index(e, k);
    let c = key_index(e, k);
    if c < i {
        assert(e[c].0 == k);
    } else if c > i {
        assert(e[i].0 == k);
    }
}

/// Position at which a new key is inserted: the first index whose key sorts
/// after it, or the end.
pub open spec fn is_insert_pos(e: Seq<(Seq<char>, Json)>, k: Seq<char>, p: int) -> bool {
    &&& 0 <= p <= e.len()
    &&& (p < e.len() ==> seq_lt(k, e[p].0))
    &&& forall|j: int| 0 <= j < p ==> !seq_lt(k, #[trigger] e[j].0)
}

pub open spec fn insert_pos(e: Seq<(Seq<char>, Json)>, k: Seq<char>) -> int {
    choose|p: int| is_insert_pos(e, k, p)
}

proof fn lemma_insert_pos_unique(e: Seq<(Seq<char>, Json)>, k: Seq<char>, p: int)
    requires
        is_insert_pos(e, k, p),
    ensures
        insert_pos(e, k) == p,
{
    let q = insert_pos(e, k);
    assert(is_insert_pos(e, k, q));
    if q < p {
        assert(!seq_lt(k, e[q].0));
    } else if q > p {
        assert(!seq_lt(k, e[p].0));
    }
}

/// The entries after inserting `k` with value `v`: the first entry with key
/// `k` is replaced, or the pair is inserted before the first larger key.
pub open spec fn map_insert(e: Seq<(Seq<char>, Json)>, k: Seq<char>, v: Json) -> Seq<
    (Seq<char>, Json),
> {
    if has_key(e, k) {
        e.update(key_index(e, k), (k, v))
    } else {
        e.insert(insert_pos(e, k), (k, v))
    }
}

/// The entries after removing the first entry with key `k`.
pub open spec fn map_remove(e: Seq<(Seq<char>, Json)>, k: Seq<char>) -> Seq<(Seq<char>, Json)> {
    if has_key(e, k) {
        e.remove(key_index(e, k))
    } else {
        e
    }
}

/// Removing one key leaves the value stored under every other key as it was.
pub proof fn lemma_map_remove_get_other(e: Seq<(Seq<char>, Json)>, k: Seq<char>, k2: Seq<char>)
    requires
        k2 != k,
    ensures
        map_get(map_remove(e, k), k2) == map_get(e, k2),
{
    if has_key(e, k) {
        lemma_first_key_index(e, k);
        let i = key_index(e, k);
        let r = e.remove(i);
        if has_key(e, k2) {
            lemma_first_key_index(e, k2);
            let j = key_index(e, k2);
            if j < i {
                assert(r[j] == e[j]);
                assert forall|m: int| 0 <= m < j implies r[m].0 != k2 by {
                    assert(r[m] == e[m]);
                }
                assert(is_first_key_index(r, k2, j));
                lemma_first_key_index_unique(r, k2, j);
            } else {
                assert(r[j - 1] == e[j]);
                assert forall|m: int| 0 <= m < j - 1 implies r[m].0 != k2 by {
                    if m < i {
                        assert(r[m] == e[m]);
                    } else {
                        assert(r[m] == e[m + 1]);
                    }
                }
                assert(is_first_key_index(r, k2, j - 1));
                lemma_first_key_index_unique(r, k2, j - 1);
            }
        } else {
            assert forall|m: int| 0 <= m < r.len() implies r[m].0 != k2 by {
                if m < i {
                    assert(r[m] == e[m]);
                } else {
                    assert(r[m] == e[m + 1]);
                }
            }
        }
    }
}

/// No two entries share a key.
pub open spec fn unique_keys(e: Seq<(Seq<char>, Json)>) -> bool {
    forall|i: int, j: int| 0 <= i < j < e.len() ==> #[trigger] e[i].0 != #[trigger] e[j].0
}

/// Removing a key from entries with distinct keys keeps the keys distinct
/// and leaves nothing under the removed key.
pub proof fn lemma_map_remove_unique(e: Seq<(Seq<char>, Json)>, k: Seq<char>)
    requires
        unique_keys(e),
    ensures
        unique_keys(map_remove(e, k)),
        map_get(map_remove(e, k), k) is None,
{
    if has_key(e, k) {
        lemma_first_key_index(e, k);
        let i = key_index(e, k);
        let r = e.remove(i);
        assert forall|a: int, b: int| 0 <= a < b < r.len() implies #[trigger] r[a].0
            != #[trigger] r[b].0 by {
            let a2 = if a < i {
                a
            } else {
                a + 1
            };
            let b2 = if b < i {
                b
            } else {
                b + 1
            };
            assert(r[a] == e[a2] && r[b] == e[b2]);
            assert(e[a2].0 != e[b2].0);
        }
        assert forall|m: int| 0 <= m < r.len() implies r[m].0 != k by {
            if m < i {
                assert(r[m] == e[m]);
                assert(e[m].0 != e[i].0);
            } else {
                assert(r[m] == e[m + 1]);
                assert(e[i].0 != e[m + 1].0);
            }
        }
    }
}

/// The keys of the entries strictly ascend in string order.
pub open spec fn keys_ascending(e: Seq<(Seq<char>, Json)>) -> bool {
    forall|i: int, j: int| 0 <= i < j < e.len() ==> seq_lt(#[trigger] e[i].0, #[trigger] e[j].0)
}

/// Entries with ascending keys have distinct keys.
pub proof fn lemma_ascending_keys_unique(e: Seq<(Seq<char>, Json)>)
    requires
        keys_ascending(e),
    ensures
        unique_keys(e),
{
    assert forall|i: int, j: int| 0 <= i < j < e.len() implies #[trigger] e[i].0
        != #[trigger] e[j].0 by {
        lemma_seq_lt_asymmetric(e[i].0, e[j].0);
    }
}

/// Storing a key keeps the keys ascending.
pub proof fn lemma_map_insert_ascending(e: Seq<(Seq<char>, Json)>, k: Seq<char>, v: Json)
    requires
        keys_ascending(e),
    ensures
        keys_ascending(map_insert(e, k, v)),
{
    let r = map_insert(e, k, v);
    if has_key(e, k) {
        lemma_first_key_index(e, k);
        let i = key_index(e, k);
        assert forall|a: int, b: int| 0 <= a < b < r.len() implies seq_lt(
            #[trigger] r[a].0,
            #[trigger] r[b].0,
        ) by {
            assert(r[a].0 == e[a].0 && r[b].0 == e[b].0);
        }
    } else {
        lemma_insert_pos_exists(e, k);
        let p = insert_pos(e, k);
        assert forall|j: int| 0 <= j < p implies seq_lt(#[trigger] e[j].0, k) by {
            assert(e[j].0 != k);
            lemma_seq_lt_total(e[j].0, k);
        }
        assert forall|j: int| p <= j < e.len() implies seq_lt(k, #[trigger] e[j].0) by {
            if j > p {
                lemma_seq_lt_transitive(k, e[p].0, e[j].0);
            }
        }
        assert forall|a: int, b: int| 0 <= a < b < r.len() implies seq_lt(
            #[trigger] r[a].0,
            #[trigger] r[b].0,
        ) by {
            if b < p {
                assert(r[a] == e[a] && r[b] == e[b]);
            } else if b == p {
                assert(r[a] == e[a] && r[b].0 == k);
            } else if a < p {
                assert(r[a] == e[a] && r[b] == e[b - 1]);
                lemma_seq_lt_transitive(e[a].0, k, e[b - 1].0);
            } else if a == p {
                assert(r[a].0 == k && r[b] == e[b - 1]);
            } else {
                assert(r[a] == e[a - 1] && r[b] == e[b - 1]);
            }
        }
    }
}

/// Removing a key keeps the keys ascending.
pub proof fn lemma_map_remove_ascending(e: Seq<(Seq<char>, Json)>, k: Seq<char>)
    requires
        keys_ascending(e),
    ensures
        keys_ascending(map_remove(e, k)),
{
    if has_key(e, k) {
        lemma_first_key_index(e, k);
        let i = key_index(e, k);
        let r = e.remove(i);
        assert forall|a: int, b: int| 0 <= a < b < r.len() implies seq_lt(
            #[trigger] r[a].0,
            #[trigger] r[b].0,
        ) by {
            let a2 = if a < i {
                a
            } else {
                a + 1
            };
            let b2 = if b < i {
                b
            } else {
                b + 1
            };
            assert(r[a] == e[a2] && r[b] == e[b2]);
        }
    }
}

/// The keys of the entries, in order.
pub open spec fn map_keys(e: Seq<(Seq<char>, Json)>) -> Seq<Seq<char>> {
    Seq::new(e.len(), |i: int| e[i].0)
}

/// Reading a key right after storing it gives the stored value.
pub proof fn lemma_map_insert_get_same(e: Seq<(Seq<char>, Json)>, k: Seq<char>, v: Json)
    ensures
        map_get(map_insert(e, k, v), k) == Some(v),
{
    let r = map_insert(e, k, v);
    if has_key(e, k) {
        lemma_first_key_index(e, k);
        let i = key_index(e, k);
        assert(is_first_key_index(r, k, i));
        lemma_first_key_index_unique(r, k, i);
    } else {
        let p = insert_pos(e, k);
        lemma_insert_pos_exists(e, k);
        assert(is_first_key_index(r, k, p));
        lemma_first_key_index_unique(r, k, p);
    }
}

/// What a key reads after storing a key: the stored value for that key, the
/// old value for every other key.
pub proof fn lemma_map_insert_get(e: Seq<(Seq<char>, Json)>, k: Seq<char>, v: Json, k2: Seq<char>)
    ensures
        map_get(map_insert(e, k, v), k2) == (if k2 == k {
            Some(v)
        } else {
            map_get(e, k2)
        }),
{
    if k2 == k {
        lemma_map_insert_get_same(e, k, v);
    } else {
        lemma_map_insert_get_other(e, k, v, k2);
    }
}

/// Storing a key leaves the other keys' values unchanged.
pub proof fn lemma_map_insert_get_other(
    e: Seq<(Seq<char>, Json)>,
    k: Seq<char>,
    v: Json,
    k2: Seq<char>,
)
    requires
        k2 != k,
    ensures
        map_get(map_insert(e, k, v), k2) == map_get(e, k2),
        has_key(map_insert(e, k, v), k2) == has_key(e, k2),
{
    let r = map_insert(e, k, v);
    if has_key(e, k) {
        lemma_first_key_index(e, k);
        let i = key_index(e, k);
        if has_key(e, k2) {
            lemma_first_key_index(e, k2);
            let j = key_index(e, k2);
            assert(is_first_key_index(r, k2, j));
            lemma_first_key_index_unique(r, k2, j);
        } else {
            assert forall|m: int| 0 <= m < r.len() implies r[m].0 != k2 by {
                if m != i {
                    assert(r[m] == e[m]);
                }
            }
        }
    } else {
        lemma_insert_pos_exists(e, k);
        let p = insert_pos(e, k);
        if has_key(e, k2) {
            lemma_first_key_index(e, k2);
            let j = key_index(e, k2);
            if j < p {
                assert(is_first_key_index(r, k2, j));
                lemma_first_key_index_unique(r, k2, j);
            } else {
                assert forall|m: int| 0 <= m < j + 1 implies (m == j + 1 || r[m].0 != k2) by {
                    if m < p {
                        assert(r[m] == e[m]);
                    } else if m > p {
                        assert(r[m] == e[m - 1]);
                    }
                }
                assert(r[j + 1] == e[j]);
                assert(is_first_key_index(r, k2, j + 1));
                lemma_first_key_index_unique(r, k2, j + 1);
            }
        } else {
            assert forall|m: int| 0 <= m < r.len() implies r[m].0 != k2 by {
                if m < p {
                    assert(r[m] == e[m]);
                } else if m > p {
                    assert(r[m] == e[m - 1]);
                }
            }
        }
    }
}

/// An insertion position exists for every key.
pub proof fn lemma_insert_pos_exists(e: Seq<(Seq<char>, Json)>, k: Seq<char>)
    ensures
        is_insert_pos(e, k, insert_pos(e, k)),
{
    if exists|j: int| 0 <= j < e.len() && seq_lt(k, e[j].0) {
        let w = choose|j: int| 0 <= j < e.len() && seq_lt(k, e[j].0);
        lemma_least_insert_pos(e, k, w);
    } else {
        assert(is_insert_pos(e, k, e.len() as int));
    }
}

proof fn lemma_least_insert_pos(e: Seq<(Seq<char>, Json)>, k: Seq<char>, w: int)
    requires
        0 <= w < e.len(),
        seq_lt(k, e[w].0),
    ensures
        exists|p: int| is_insert_pos(e, k, p),
    decreases w,
{
    if forall|j: int| 0 <= j < w ==> !seq_lt(k, #[trigger] e[j].0) {
        assert(is_insert_pos(e, k, w));
    } else {
        let j = choose|j: int| 0 <= j < w && seq_lt(k, e[j].0);
        lemma_least_insert_pos(e, k, j);
    }
}

// ---------------------------------------------------------------------------
// JsonMap
// ---------------------------------------------------------------------------
impl JsonMap {
    /// An empty object.
    pub fn new() -> (r: JsonMap)
        ensures
            r@ == Seq::<(Seq<char>, Json)>::empty(),
    {
        let entries: Vec<(String, JsonValue)> = Vec::new();
        assert(entries_view(entries@) =~= Seq::<(Seq<char>, Json)>::empty());
        let r = JsonMap { entries };
        assert(r@ =~= Seq::<(Seq<char>, Json)>::empty());
        r
    }

    /// Number of entries.
    pub fn len(&self) -> (r: usize)
        ensures
            r == self@.len(),
    {
        self.entries.len()
    }

    /// Whether the object has no entries.
    pub fn is_empty(&self) -> (r: bool)
        ensures
            r == (self@.len() == 0),
    {
        self.entries.len() == 0
    }

    /// The key of entry `i`.
    pub fn key_at(&self, i: usize) -> (r: &String)
        requires
            i < self@.len(),
        ensures
            r@ == self@[i as int].0,
    {
        &self.entries[i].0
    }

    /// The value of entry `i`.
    pub fn value_at(&self, i: usize) -> (r: &JsonValue)
        requires
            i < self@.len(),
        ensures
            r@ == self@[i as int].1,
    {
        &self.entries[i].1
    }

    /// The index of the first entry with key `key`.
    pub fn find(&self, key: &str) -> (r: Option<usize>)
        ensures
            match r {
                Some(i) => is_first_key_index(self@, key@, i as int) && key_index(self@, key@)
                    == i,
                None => !has_key(self@, key@),
            },
    {
        let n = self.entries.len();
        let mut i: usize = 0;
        while i < n
            invariant
                n == self@.len(),
                i <= n,
                forall|j: int| 0 <= j < i ==> self@[j].0 != key@,
            decreases n - i,
        {
            if str_eq(self.entries[i].0.as_str(), key) {
                proof {
                    lemma_first_key_index_unique(self@, key@, i as int);
                }
                return Some(i);
            }
            i = i + 1;
        }
        None
    }

    /// The value stored under `key`.
    pub fn get(&self, key: &str) -> (r: Option<&JsonValue>)
        ensures
            match r {
                Some(v) => map_get(self@, key@) == Some(v@),
                None => map_get(self@, key@) is None,
            },
    {
        match self.find(key) {
            Some(i) => Some(&self.entries[i].1),
            None => None,
        }
    }

    /// Whether some entry has key `key`.
    pub fn contains_key(&self, key: &str) -> (r: bool)
        ensures
            r == has_key(self@, key@),
    {
        self.find(key).is_some()
    }

    /// Stores `value` under `key`, replacing an existing entry with that key or
    /// inserting the pair in key order.
    pub fn insert(&mut self, key: String, value: JsonValue)
        ensures
            final(self)@ == map_insert(old(self)@, key@, value@),
            keys_ascending(final(self)@),
    {
        proof {
            use_type_invariant(&*self);
        }
        let ghost e = self@;
        let ghost kv = (key@, value@);
        proof {
            lemma_map_insert_ascending(e, key@, value@);
        }
        let found = self.find(key.as_str());
        let mut entries: Vec<(String, JsonValue)> = Vec::new();
        std::mem::swap(&mut entries, &mut self.entries);
        assert(entries_view(entries@) == e);
        match found {
            Some(i) => {
                entries.set(i, (key, value));
                assert(entries_view(entries@) =~= e.update(i as int, kv));
            },
            None => {
                let n = entries.len();
                let mut p: usize = 0;
                while p < n && !str_lt(key.as_str(), entries[p].0.as_str())
                    invariant
                        n == e.len(),
                        entries_view(entries@) == e,
                        p <= n,
                        forall|j: int| 0 <= j < p ==> !seq_lt(key@, #[trigger] e[j].0),
                    decreases n - p,
                {
                    assert(entries@[p as int].0@ == e[p as int].0);
                    p = p + 1;
                }
                proof {
                    if p < n {
                        assert(entries@[p as int].0@ == e[p as int].0);
                    }
                    assert(is_insert_pos(e, key@, p as int));
                    lemma_insert_pos_unique(e, key@, p as int);
                }
                entries.insert(p, (key, value));
                assert(entries_view(entries@) =~= e.insert(p as int, kv));
            },
        }
        self.entries = entries;
    }

    /// Removes the entry with key `key`, returning its value.
    pub fn remove(&mut self, key: &str) -> (r: Option<JsonValue>)
        ensures
            final(self)@ == map_remove(old(self)@, key@),
            keys_ascending(final(self)@),
            match r {
                Some(v) => map_get(old(self)@, key@) == Some(v@),
                None => map_get(old(self)@, key@) is None,
            },
    {
        proof {
            use_type_invariant(&*self);
        }
        let ghost e = self@;
        proof {
            lemma_map_remove_ascending(e, key@);
        }
        match self.find(key) {
            Some(i) => {
                let mut entries: Vec<(String, JsonValue)> = Vec::new();
                std::mem::swap(&mut entries, &mut self.entries);
                assert(entries_view(entries@) == e);
                let (_k, v) = entries.remove(i);
                assert(entries_view(entries@) =~= e.remove(i as int));
                self.entries = entries;
                Some(v)
            },
            None => None,
        }
    }

    /// Consumes the map, returning its entries in order.
    pub fn into_entries(self) -> (r: Vec<(String, JsonValue)>)
        ensures
            entries_view(r@) == self@,
    {
        self.entries
    }

    /// A copy of the map.
    pub fn copy(&self) -> (r: JsonMap)
        ensures
            r@ == self@,
        decreases self, 0nat,
    {
        let n = self.entries.len();
        let mut out: Vec<(String, JsonValue)> = Vec::new();
        let mut i: usize = 0;
        while i < n
            invariant
                n == self@.len(),
                i <= n,
                out@.len() == i,
                forall|j: int| 0 <= j < i ==> (#[trigger] out@[j]).0@ == self@[j].0 && json_view(
                    out@[j].1,
                ) == self@[j].1,
            decreases n - i,
        {
            proof {
                assert(decreases_to!(self => self.entries));
            }
            let k = copy_str(self.entries[i].0.as_str());
            let v = self.entries[i].1.copy();
            out.push((k, v));
            i = i + 1;
        }
        proof {
            use_type_invariant(self);
        }
        assert(entries_view(out@) =~= self@);
        JsonMap { entries: out }
    }
}

// ---------------------------------------------------------------------------
// JsonValue
// ---------------------------------------------------------------------------
impl JsonValue {
    /// A copy of the value.
    pub fn copy(&self) -> (r: JsonValue)
        ensures
            r@ == self@,
        decreases self, 1nat,
    {
        match self {
            JsonValue::Null => JsonValue::Null,
            JsonValue::Bool(b) => JsonValue::Bool(*b),
            JsonValue::Number(n) => JsonValue::Number(
                match n {
                    JsonNumber::PosInt(x) => JsonNumber::PosInt(*x),
                    JsonNumber::NegInt(x) => JsonNumber::NegInt(*x),
                    JsonNumber::Float(t) => JsonNumber::Float(copy_str(t.as_str())),
                },
            ),
            JsonValue::String(s) => JsonValue::String(copy_str(s.as_str())),
            JsonValue::Array(items) => {
                let n = items.len();
                let mut out: Vec<JsonValue> = Vec::new();
                let mut i: usize = 0;
                while i < n
                    invariant
                        n == items@.len(),
                        i <= n,
                        *self == JsonValue::Array(*items),
                        out@.len() == i,
                        forall|j: int| 0 <= j < i ==> (#[trigger] out@[j])@ == items@[j]@,
                    decreases n - i,
                {
                    proof {
                        assert(decreases_to!(*items => items@[i as int]));
                        assert(decreases_to!(*self => self->Array_0));
                        assert(decreases_to!(*self => items@[i as int]));
                    }
                    let v = items[i].copy();
                    out.push(v);
                    i = i + 1;
                }
                proof {
                    lemma_array_view(out);
                    lemma_array_view(*items);
                    assert(Seq::new(out@.len(), |j: int| out@[j]@) =~= Seq::new(
                        items@.len(),
                        |j: int| items@[j]@,
                    ));
                }
                JsonValue::Array(out)
            },
            JsonValue::Object(m) => {
                let c = m.copy();
                proof {
                    lemma_object_view(c);
                    lemma_object_view(*m);
                }
                JsonValue::Object(c)
            },
        }
    }

    /// Whether the value is `null`.
    pub fn is_null(&self) -> (r: bool)
        ensures
            r == (self@ is Null),
    {
        match self {
            JsonValue::Null => true,
            _ => false,
        }
    }

    /// The object, when the value is one.
    pub fn as_object(&self) -> (r: Option<&JsonMap>)
        ensures
            match r {
                Some(m) => self@ == Json::Object(m@),
                None => !(self@ is Object),
            },
    {
        match self {
            JsonValue::Object(m) => {
                proof {
                    lemma_object_view(*m);
                }
                Some(m)
            },
            _ => None,
        }
    }

    /// The items, when the value is an array.
    pub fn as_array(&self) -> (r: Option<&Vec<JsonValue>>)
        ensures
            match r {
                Some(items) => self@ == Json::Array(Seq::new(items@.len(), |i: int| items@[i]@)),
                None => !(self@ is Array),
            },
    {
        match self {
            JsonValue::Array(items) => {
                proof {
                    lemma_array_view(*items);
                }
                Some(items)
            },
            _ => None,
        }
    }

    /// The text, when the value is a string.
    pub fn as_str(&self) -> (r: Option<&str>)
        ensures
            match r {
                Some(s) => self@ == Json::String(s@),
                None => !(self@ is String),
            },
    {
        match self {
            JsonValue::String(s) => Some(s.as_str()),
            _ => None,
        }
    }
}

} // verus!
