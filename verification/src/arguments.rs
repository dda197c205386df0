//! Tool call payloads and the owning decoder that consumes their arguments
//! field by field.

use crate::closed_schema::result_model;
use crate::json::{
    copy_str, has_key, lemma_ascending_keys_unique, lemma_first_key_index,
    lemma_map_remove_get_other, lemma_map_remove_unique,
    map_get, map_remove, unique_keys, Json, JsonMap, JsonValue,
};
use crate::tool_error::{McpToolError, ToolErrorModel};
use crate::typed::McpToolValue;
use vstd::prelude::*;
use vstd::string::*;

verus! {

/// Typed MCP tool call payload passed to registered handlers: the normalized
/// argument object.
#[derive(Debug)]
pub struct McpToolCall {
    arguments: JsonMap,
}

impl View for McpToolCall {
    type V = Seq<(Seq<char>, Json)>;

    closed spec fn view(&self) -> Seq<(Seq<char>, Json)> {
        self.arguments@
    }
}

/// The arguments a protocol value stands for: none is an empty object, an
/// object is itself, anything else is rejected.
pub open spec fn call_arguments(arguments: Option<Json>) -> Result<Seq<(Seq<char>, Json)>, ToolErrorModel> {
    match arguments {
        None => Ok(Seq::empty()),
        Some(Json::Object(e)) => Ok(e),
        Some(_) => Err(ToolErrorModel::ArgumentsMustBeObject),
    }
}

impl McpToolCall {
    /// Creates a tool call from normalized MCP arguments.
    pub fn new(arguments: JsonMap) -> (r: Self)
        ensures
            r@ == arguments@,
    {
        McpToolCall { arguments }
    }

    /// Creates a tool call with no arguments.
    pub fn empty() -> (r: Self)
        ensures
            r@ == Seq::<(Seq<char>, Json)>::empty(),
    {
        McpToolCall { arguments: JsonMap::new() }
    }

    /// Converts protocol arguments into a normalized tool call.
    pub fn from_value(arguments: Option<JsonValue>) -> (r: Result<Self, McpToolError>)
        ensures
            match r {
                Ok(c) => call_arguments(
                    match arguments {
                        Some(v) => Some(v@),
                        None => None,
                    },
                ) == Ok::<Seq<(Seq<char>, Json)>, ToolErrorModel>(c@),
                Err(e) => call_arguments(
                    match arguments {
                        Some(v) => Some(v@),
                        None => None,
                    },
                ) == Err::<Seq<(Seq<char>, Json)>, ToolErrorModel>(e@),
            },
    {
        match arguments {
            None => Ok(Self::empty()),
            Some(JsonValue::Object(object)) => {
                proof {
                    crate::json::lemma_object_view(object);
                }
                Ok(Self::new(object))
            },
            Some(_) => Err(McpToolError::ArgumentsMustBeObject),
        }
    }

    /// Returns the normalized argument object.
    pub fn arguments(&self) -> (r: &JsonMap)
        ensures
            r@ == self@,
    {
        &self.arguments
    }

    /// Converts this call into an owning argument decoder.
    pub fn into_arguments(self) -> (r: McpArguments)
        ensures
            r@ == self@,
    {
        McpArguments::new(self.arguments)
    }
}

impl Default for McpToolCall {
    fn default() -> (r: Self)
        ensures
            r@ == Seq::<(Seq<char>, Json)>::empty(),
    {
        Self::empty()
    }
}

/// Owning decoder for MCP tool argument objects.
#[derive(Debug)]
pub struct McpArguments {
    arguments: JsonMap,
}

impl View for McpArguments {
    type V = Seq<(Seq<char>, Json)>;

    closed spec fn view(&self) -> Seq<(Seq<char>, Json)> {
        self.arguments@
    }
}

/// Taking a field by its name and then by each alias: the remaining entries,
/// and the value found, or `Err` when a second spelling was present (the
/// entries then already lack that spelling).
pub open spec fn take_one_of(
    e: Seq<(Seq<char>, Json)>,
    found: Option<Json>,
    aliases: Seq<Seq<char>>,
) -> (Seq<(Seq<char>, Json)>, Result<Option<Json>, ()>)
    decreases aliases.len(),
{
    if aliases.len() == 0 {
        (e, Ok(found))
    } else {
        let a = aliases[0];
        let rest = map_remove(e, a);
        match map_get(e, a) {
            Some(v) => if found is Some {
                (rest, Err(()))
            } else {
                take_one_of(rest, Some(v), aliases.drop_first())
            },
            None => take_one_of(rest, found, aliases.drop_first()),
        }
    }
}

/// The texts of a list of static strings.
pub open spec fn alias_texts(aliases: Seq<&str>) -> Seq<Seq<char>> {
    Seq::new(aliases.len(), |i: int| aliases[i]@)
}

/// `take_one_of` started from the canonical field name.
pub open spec fn take_field_one_of(
    e: Seq<(Seq<char>, Json)>,
    field: Seq<char>,
    aliases: Seq<Seq<char>>,
) -> (Seq<(Seq<char>, Json)>, Result<Option<Json>, ()>) {
    take_one_of(map_remove(e, field), map_get(e, field), aliases)
}

/// The model of an optional value.
pub open spec fn opt_json(o: Option<JsonValue>) -> Option<Json> {
    match o {
        Some(v) => Some(v@),
        None => None,
    }
}

/// Unknown remaining arguments: the first remaining key, if any.
pub open spec fn unknown_rule(e: Seq<(Seq<char>, Json)>) -> Result<(), ToolErrorModel> {
    if e.len() == 0 {
        Ok(())
    } else {
        Err(ToolErrorModel::UnknownField { field: e[0].0 })
    }
}

/// Rejects any remaining arguments, naming the first.
pub fn reject_unknown_arguments(arguments: JsonMap) -> (r: Result<(), McpToolError>)
    ensures
        result_model(r) == unknown_rule(arguments@),
{
    if arguments.len() > 0 {
        let field = copy_str(arguments.key_at(0).as_str());
        return Err(McpToolError::UnknownField { field });
    }
    Ok(())
}

impl McpArguments {
    /// Creates an owning decoder from normalized MCP arguments.
    pub fn new(arguments: JsonMap) -> (r: Self)
        ensures
            r@ == arguments@,
            unique_keys(r@),
    {
        proof {
            use_type_invariant(&arguments);
            lemma_ascending_keys_unique(arguments@);
        }
        McpArguments { arguments }
    }

    /// Returns whether any arguments remain unconsumed.
    pub fn is_empty(&self) -> (r: bool)
        ensures
            r == (self@.len() == 0),
    {
        self.arguments.is_empty()
    }

    /// Returns the remaining raw argument object.
    pub fn as_inner(&self) -> (r: &JsonMap)
        ensures
            r@ == self@,
    {
        &self.arguments
    }

    /// Returns the remaining raw argument object.
    pub fn into_inner(self) -> (r: JsonMap)
        ensures
            r@ == self@,
    {
        self.arguments
    }

    /// Removes and returns one raw argument by wire field name.
    pub fn take_raw(&mut self, field: &str) -> (r: Option<JsonValue>)
        ensures
            final(self)@ == map_remove(old(self)@, field@),
            opt_json(r) == map_get(old(self)@, field@),
    {
        self.arguments.remove(field)
    }

    /// Removes and returns one raw argument by canonical field name or alias;
    /// two spellings present is a duplicate-field error.
    pub fn take_raw_one_of(&mut self, field: &str, aliases: &[&str]) -> (r: Result<
        Option<JsonValue>,
        McpToolError,
    >)
        ensures
            ({
                let (rest, outcome) = take_field_one_of(old(self)@, field@, alias_texts(aliases@));
                &&& final(self)@ == rest
                &&& match r {
                    Ok(v) => outcome == Ok::<Option<Json>, ()>(opt_json(v)),
                    Err(e) => outcome is Err && e@ == ToolErrorModel::DuplicateField {
                        field: field@,
                    },
                }
            }),
    {
        let ghost start = self@;
        let ghost names = alias_texts(aliases@);
        let mut found = self.take_raw(field);
        let n = aliases.len();
        let mut i: usize = 0;
        assert(names.subrange(0, n as int) =~= names);
        while i < n
            invariant
                n == aliases@.len(),
                names == alias_texts(aliases@),
                start == old(self)@,
                i <= n,
                take_field_one_of(start, field@, names) == take_one_of(
                    self@,
                    opt_json(found),
                    names.subrange(i as int, n as int),
                ),
            decreases n - i,
        {
            let ghost rest = names.subrange(i as int, n as int);
            assert(rest[0] == aliases@[i as int]@);
            assert(rest.drop_first() =~= names.subrange(i as int + 1, n as int));
            let alias = aliases[i];
            let ghost prev = self@;
            let ghost prev_found = opt_json(found);
            match self.take_raw(alias) {
                Some(alias_value) => {
                    if found.is_some() {
                        assert(take_one_of(prev, prev_found, rest) == (
                            map_remove(prev, alias@),
                            Err::<Option<Json>, ()>(()),
                        ));
                        return Err(McpToolError::DuplicateField { field: copy_str(field) });
                    }
                    found = Some(alias_value);
                },
                None => {},
            }
            i = i + 1;
        }
        assert(names.subrange(n as int, n as int) =~= Seq::<Seq<char>>::empty());
        Ok(found)
    }

    /// Removes, requires, and decodes one typed argument by field name: a
    /// missing field is an error, otherwise the value is decoded by `T`.
    pub fn take_required_tool_value<T: McpToolValue>(&mut self, field: &str) -> (r: Result<
        T,
        McpToolError,
    >)
        ensures
            final(self)@ == map_remove(old(self)@, field@),
            match map_get(old(self)@, field@) {
                None => r matches Err(e) && e@ == ToolErrorModel::MissingField { field: field@ },
                Some(v) => exists|value: JsonValue|
                    value@ == v && call_ensures(T::from_tool_value, (field, value), r),
            },
    {
        match self.take_raw(field) {
            Some(value) => T::from_tool_value(field, value),
            None => Err(McpToolError::missing_field(field)),
        }
    }

    /// Removes, requires, and decodes one typed argument by field name or
    /// alias.
    pub fn take_required_tool_value_from<T: McpToolValue>(
        &mut self,
        field: &'static str,
        aliases: &'static [&'static str],
    ) -> (r: Result<T, McpToolError>)
        ensures
            ({
                let (rest, outcome) = take_field_one_of(old(self)@, field@, alias_texts(aliases@));
                &&& final(self)@ == rest
                &&& match outcome {
                    Err(()) => r matches Err(e) && e@ == ToolErrorModel::DuplicateField {
                        field: field@,
                    },
                    Ok(None) => r matches Err(e) && e@ == ToolErrorModel::MissingField {
                        field: field@,
                    },
                    Ok(Some(v)) => exists|value: JsonValue|
                        value@ == v && call_ensures(T::from_tool_value, (field, value), r),
                }
            }),
    {
        match self.take_raw_one_of(field, aliases) {
            Ok(Some(value)) => T::from_tool_value(field, value),
            Ok(None) => Err(McpToolError::missing_field(field)),
            Err(e) => Err(e),
        }
    }

    /// Removes and decodes an optional typed argument by field name.
    pub fn take_present_tool_value<T: McpToolValue>(&mut self, field: &str) -> (r: Result<
        Option<T>,
        McpToolError,
    >)
        ensures
            final(self)@ == map_remove(old(self)@, field@),
            match map_get(old(self)@, field@) {
                None => r matches Ok(None),
                Some(v) => exists|value: JsonValue, decoded: Result<T, McpToolError>|
                    value@ == v && call_ensures(T::from_tool_value, (field, value), decoded) && r
                        == match decoded {
                        Ok(t) => Ok::<Option<T>, McpToolError>(Some(t)),
                        Err(e) => Err(e),
                    },
            },
    {
        match self.take_raw(field) {
            Some(value) => match T::from_tool_value(field, value) {
                Ok(t) => Ok(Some(t)),
                Err(e) => Err(e),
            },
            None => Ok(None),
        }
    }

    /// Removes and decodes an optional typed argument by field name or alias.
    pub fn take_present_tool_value_from<T: McpToolValue>(
        &mut self,
        field: &'static str,
        aliases: &'static [&'static str],
    ) -> (r: Result<Option<T>, McpToolError>)
        ensures
            ({
                let (rest, outcome) = take_field_one_of(old(self)@, field@, alias_texts(aliases@));
                &&& final(self)@ == rest
                &&& match outcome {
                    Err(()) => r matches Err(e) && e@ == ToolErrorModel::DuplicateField {
                        field: field@,
                    },
                    Ok(None) => r matches Ok(None),
                    Ok(Some(v)) => exists|value: JsonValue, decoded: Result<T, McpToolError>|
                        value@ == v && call_ensures(T::from_tool_value, (field, value), decoded)
                            && r == match decoded {
                            Ok(t) => Ok::<Option<T>, McpToolError>(Some(t)),
                            Err(e) => Err(e),
                        },
                }
            }),
    {
        match self.take_raw_one_of(field, aliases) {
            Ok(Some(value)) => match T::from_tool_value(field, value) {
                Ok(t) => Ok(Some(t)),
                Err(e) => Err(e),
            },
            Ok(None) => Ok(None),
            Err(e) => Err(e),
        }
    }

    /// Verifies that no unrecognized arguments remain.
    pub fn finish(self) -> (r: Result<(), McpToolError>)
        ensures
            result_model(r) == unknown_rule(self@),
    {
        reject_unknown_arguments(self.arguments)
    }
}

impl Default for McpArguments {
    fn default() -> (r: Self)
        ensures
            r@ == Seq::<(Seq<char>, Json)>::empty(),
    {
        McpArguments { arguments: JsonMap::new() }
    }
}

impl From<McpToolCall> for McpArguments {
    fn from(call: McpToolCall) -> (r: Self) {
        McpArguments { arguments: call.arguments }
    }
}

impl vstd::std_specs::convert::FromSpecImpl<McpToolCall> for McpArguments {
    open spec fn obeys_from_spec() -> bool {
        true
    }

    closed spec fn from_spec(call: McpToolCall) -> Self {
        McpArguments { arguments: call.arguments }
    }
}

impl From<JsonMap> for McpArguments {
    fn from(arguments: JsonMap) -> (r: Self) {
        McpArguments { arguments }
    }
}

impl vstd::std_specs::convert::FromSpecImpl<JsonMap> for McpArguments {
    open spec fn obeys_from_spec() -> bool {
        true
    }

    closed spec fn from_spec(arguments: JsonMap) -> Self {
        McpArguments { arguments }
    }
}


// ---------------------------------------------------------------------------
// Laws
// ---------------------------------------------------------------------------
/// How many of the given spellings have a value in the entries.
pub open spec fn spellings_present(e: Seq<(Seq<char>, Json)>, names: Seq<Seq<char>>) -> nat
    decreases names.len(),
{
    if names.len() == 0 {
        0
    } else {
        (if map_get(e, names[0]) is Some {
            1nat
        } else {
            0nat
        }) + spellings_present(e, names.drop_first())
    }
}

/// The value of the first of the given spellings that has one.
pub open spec fn first_spelling_value(e: Seq<(Seq<char>, Json)>, names: Seq<Seq<char>>) -> Option<
    Json,
>
    decreases names.len(),
{
    if names.len() == 0 {
        None
    } else {
        match map_get(e, names[0]) {
            Some(v) => Some(v),
            None => first_spelling_value(e, names.drop_first()),
        }
    }
}

/// No spelling is listed twice.
pub open spec fn distinct_names(names: Seq<Seq<char>>) -> bool {
    forall|i: int, j: int| 0 <= i < j < names.len() ==> #[trigger] names[i] != #[trigger] names[j]
}

proof fn lemma_spellings_agree(e1: Seq<(Seq<char>, Json)>, e2: Seq<(Seq<char>, Json)>, names: Seq<Seq<char>>)
    requires
        forall|i: int| 0 <= i < names.len() ==> map_get(e1, #[trigger] names[i]) == map_get(e2, names[i]),
    ensures
        spellings_present(e1, names) == spellings_present(e2, names),
        first_spelling_value(e1, names) == first_spelling_value(e2, names),
    decreases names.len(),
{
    if names.len() > 0 {
        let tail = names.drop_first();
        assert(map_get(e1, names[0]) == map_get(e2, names[0]));
        assert forall|i: int| 0 <= i < tail.len() implies map_get(e1, #[trigger] tail[i]) == map_get(
            e2,
            tail[i],
        ) by {
            assert(tail[i] == names[i + 1]);
        }
        lemma_spellings_agree(e1, e2, tail);
    }
}

proof fn lemma_take_one_of(
    e: Seq<(Seq<char>, Json)>,
    found: Option<Json>,
    names: Seq<Seq<char>>,
    k: Seq<char>,
)
    requires
        unique_keys(e),
        distinct_names(names),
    ensures
        ({
            let (rest, outcome) = take_one_of(e, found, names);
            let c = spellings_present(e, names) + (if found is Some {
                1nat
            } else {
                0nat
            });
            &&& c <= 1 ==> outcome == Ok::<Option<Json>, ()>(
                if found is Some {
                    found
                } else {
                    first_spelling_value(e, names)
                },
            )
            &&& c <= 1 ==> (names.contains(k) ==> map_get(rest, k) is None)
            &&& c <= 1 ==> (!names.contains(k) ==> map_get(rest, k) == map_get(e, k))
            &&& c >= 2 ==> outcome is Err
        }),
    decreases names.len(),
{
    if names.len() > 0 {
        let a = names[0];
        let tail = names.drop_first();
        let r = map_remove(e, a);
        lemma_map_remove_unique(e, a);
        assert forall|i: int| 0 <= i < tail.len() implies map_get(r, #[trigger] tail[i]) == map_get(
            e,
            tail[i],
        ) by {
            assert(tail[i] == names[i + 1]);
            lemma_map_remove_get_other(e, a, tail[i]);
        }
        lemma_spellings_agree(r, e, tail);
        assert(distinct_names(tail)) by {
            assert forall|i: int, j: int| 0 <= i < j < tail.len() implies #[trigger] tail[i]
                != #[trigger] tail[j] by {
                assert(tail[i] == names[i + 1] && tail[j] == names[j + 1]);
            }
        }
        assert(!tail.contains(a)) by {
            assert forall|i: int| 0 <= i < tail.len() implies #[trigger] tail[i] != a by {
                assert(tail[i] == names[i + 1]);
            }
        }
        if k != a {
            lemma_map_remove_get_other(e, a, k);
        }
        assert(names.contains(k) <==> (k == a || tail.contains(k))) by {
            if names.contains(k) && k != a {
                let i = choose|i: int| 0 <= i < names.len() && names[i] == k;
                assert(tail[i - 1] == k);
            }
            if tail.contains(k) {
                let i = choose|i: int| 0 <= i < tail.len() && tail[i] == k;
                assert(names[i + 1] == k);
            }
            if k == a {
                assert(names[0] == k);
            }
        }
        match map_get(e, a) {
            Some(v) => {
                if found is None {
                    lemma_take_one_of(r, Some(v), tail, k);
                    lemma_take_one_of(r, Some(v), tail, a);
                }
            },
            None => {
                lemma_take_one_of(r, found, tail, k);
                lemma_take_one_of(r, found, tail, a);
            },
        }
    }
}

/// Taking a field by its name and aliases, with the spellings all
/// different: when at most one spelling is present, the value of that
/// spelling (or nothing) is returned and every spelling is gone from the
/// arguments while every other key keeps its value; when two or more are
/// present, the outcome is a duplicate.
pub proof fn lemma_take_one_of_spellings(
    a: Seq<(Seq<char>, Json)>,
    field: Seq<char>,
    aliases: Seq<Seq<char>>,
    k: Seq<char>,
)
    requires
        unique_keys(a),
        distinct_names(seq![field] + aliases),
    ensures
        ({
            let names = seq![field] + aliases;
            let (rest, outcome) = take_field_one_of(a, field, aliases);
            &&& spellings_present(a, names) <= 1 ==> outcome == Ok::<Option<Json>, ()>(
                first_spelling_value(a, names),
            )
            &&& spellings_present(a, names) <= 1 ==> (names.contains(k) ==> map_get(rest, k) is None)
            &&& spellings_present(a, names) <= 1 ==> (!names.contains(k) ==> map_get(rest, k)
                == map_get(a, k))
            &&& spellings_present(a, names) >= 2 ==> outcome is Err
        }),
{
    let names = seq![field] + aliases;
    assert(names[0] == field);
    assert(names.drop_first() =~= aliases);
    let r0 = map_remove(a, field);
    lemma_map_remove_unique(a, field);
    assert(distinct_names(aliases)) by {
        assert forall|i: int, j: int| 0 <= i < j < aliases.len() implies #[trigger] aliases[i]
            != #[trigger] aliases[j] by {
            assert(aliases[i] == names[i + 1] && aliases[j] == names[j + 1]);
        }
    }
    assert forall|i: int| 0 <= i < aliases.len() implies map_get(r0, #[trigger] aliases[i])
        == map_get(a, aliases[i]) by {
        assert(aliases[i] == names[i + 1]);
        lemma_map_remove_get_other(a, field, aliases[i]);
    }
    lemma_spellings_agree(r0, a, aliases);
    assert(!aliases.contains(field)) by {
        assert forall|i: int| 0 <= i < aliases.len() implies #[trigger] aliases[i] != field by {
            assert(aliases[i] == names[i + 1]);
        }
    }
    if k != field {
        lemma_map_remove_get_other(a, field, k);
    }
    assert(names.contains(k) <==> (k == field || aliases.contains(k))) by {
        if names.contains(k) && k != field {
            let i = choose|i: int| 0 <= i < names.len() && names[i] == k;
            assert(aliases[i - 1] == k);
        }
        if aliases.contains(k) {
            let i = choose|i: int| 0 <= i < aliases.len() && aliases[i] == k;
            assert(names[i + 1] == k);
        }
        if k == field {
            assert(names[0] == k);
        }
    }
    lemma_take_one_of(r0, map_get(a, field), aliases, k);
    lemma_take_one_of(r0, map_get(a, field), aliases, field);
}

} // verus!
