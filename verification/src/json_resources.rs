//! Static JSON resources: validated specs, batch distinctness and
//! registration on a server.

use crate::closed_schema::result_model;
use crate::definitions::{resource_definition, resource_rule};
use crate::json::{copy_str, str_eq, Json, JsonValue};
use crate::keyed::has_entry;
use crate::protocol::{opt_text, same_resource, ResourceDefinition};
use crate::server::McpServer;
use crate::tool_error::{McpToolError, ToolErrorModel};
use vstd::prelude::*;
use vstd::string::*;

verus! {

/// Making the reader that serves a static JSON resource (the value as a
/// pretty-printed `application/json` result).
pub trait JsonResourceReader: Sized {
    /// The reader serving `value` at `uri`.
    fn json_reader(uri: String, value: JsonValue) -> Self;
}

/// Validated static JSON resource ready to register on a server.
#[derive(Debug)]
pub struct McpJsonResourceSpec {
    uri: String,
    definition: ResourceDefinition,
    value: JsonValue,
}

/// Whether a resource definition is a valid `application/json` definition
/// for `uri`.
pub open spec fn valid_json_definition(uri: Seq<char>, d: ResourceDefinition) -> bool {
    &&& d.uri@ == uri
    &&& opt_text(d.mime_type) == Some("application/json"@)
    &&& resource_rule(
        d.uri@,
        d.name@,
        opt_text(d.title),
        opt_text(d.description),
        opt_text(d.mime_type),
    ) is Ok
}

impl McpJsonResourceSpec {
    pub closed spec fn spec_uri(&self) -> Seq<char> {
        self.uri@
    }

    pub closed spec fn spec_definition(&self) -> ResourceDefinition {
        self.definition
    }

    pub closed spec fn spec_value(&self) -> Json {
        self.value@
    }

    #[verifier::type_invariant]
    spec fn definition_is_valid(self) -> bool {
        valid_json_definition(self.uri@, self.definition)
    }

    /// Build and validate an `application/json` resource backed by `value`.
    pub fn new(
        uri: &str,
        name: &str,
        title: Option<String>,
        description: Option<String>,
        value: JsonValue,
    ) -> (r: Result<Self, McpToolError>)
        ensures
            ({
                let rule = resource_rule(
                    uri@,
                    name@,
                    opt_text(title),
                    opt_text(description),
                    Some("application/json"@),
                );
                match r {
                    Ok(s) => {
                        &&& rule is Ok
                        &&& s.spec_uri() == uri@
                        &&& s.spec_definition().name@ == name@
                        &&& opt_text(s.spec_definition().title) == opt_text(title)
                        &&& opt_text(s.spec_definition().description) == opt_text(description)
                        &&& s.spec_value() == value@
                    },
                    Err(e) => rule == Err::<(), ToolErrorModel>(e@),
                }
            }),
    {
        proof {
            reveal_strlit("application/json");
        }
        let definition = match resource_definition(
            uri,
            name,
            title,
            description,
            Some(String::from_str("application/json")),
        ) {
            Ok(d) => d,
            Err(e) => {
                return Err(e);
            },
        };
        Ok(McpJsonResourceSpec { uri: String::from_str(uri), definition, value })
    }

    /// Concrete resource URI.
    pub fn uri(&self) -> (r: &str)
        ensures
            r@ == self.spec_uri(),
    {
        self.uri.as_str()
    }

    /// Resource definition advertised by `resources/list`.
    pub fn definition(&self) -> (r: &ResourceDefinition)
        ensures
            *r == self.spec_definition(),
            valid_json_definition(self.spec_uri(), *r),
    {
        proof {
            use_type_invariant(self);
        }
        &self.definition
    }

    /// The JSON value the resource serves.
    pub fn value(&self) -> (r: &JsonValue)
        ensures
            r@ == self.spec_value(),
    {
        &self.value
    }

    /// Consume the spec and return its resource definition.
    pub fn into_definition(self) -> (r: ResourceDefinition)
        ensures
            r == self.spec_definition(),
            valid_json_definition(self.spec_uri(), r),
    {
        proof {
            use_type_invariant(&self);
        }
        self.definition
    }

    /// Consume the spec and return its parts.
    pub fn into_parts(self) -> (r: (String, ResourceDefinition, JsonValue))
        ensures
            r.0@ == self.spec_uri(),
            r.1 == self.spec_definition(),
            r.2@ == self.spec_value(),
            valid_json_definition(self.spec_uri(), r.1),
    {
        proof {
            use_type_invariant(&self);
        }
        (self.uri, self.definition, self.value)
    }
}

/// The URIs of a batch of specs.
pub open spec fn spec_uris(specs: Seq<McpJsonResourceSpec>) -> Seq<Seq<char>> {
    Seq::new(specs.len(), |i: int| specs[i].spec_uri())
}

/// Whether the URI at `j` already appeared before it.
pub open spec fn repeats_earlier(uris: Seq<Seq<char>>, j: int) -> bool {
    exists|i: int| 0 <= i < j && uris[i] == uris[j]
}

/// The first URI, from index `j` on, that repeats an earlier one.
pub open spec fn first_repeat(uris: Seq<Seq<char>>, j: int) -> Option<Seq<char>>
    decreases uris.len() - j,
{
    if j < 0 || j >= uris.len() {
        None
    } else if repeats_earlier(uris, j) {
        Some(uris[j])
    } else {
        first_repeat(uris, j + 1)
    }
}

/// The distinctness rule: the first repeated URI is a duplicate-resource
/// error.
pub open spec fn distinct_rule(uris: Seq<Seq<char>>) -> Result<(), ToolErrorModel> {
    match first_repeat(uris, 0) {
        Some(u) => Err(ToolErrorModel::DuplicateResource { uri: u }),
        None => Ok(()),
    }
}

/// The first URI, from index `j` on, that is registered in `registered`.
pub open spec fn first_registered<V>(
    uris: Seq<Seq<char>>,
    registered: Seq<(Seq<char>, V)>,
    j: int,
) -> Option<Seq<char>>
    decreases uris.len() - j,
{
    if j < 0 || j >= uris.len() {
        None
    } else if has_entry(registered, uris[j]) {
        Some(uris[j])
    } else {
        first_registered(uris, registered, j + 1)
    }
}

/// The availability rule: the URIs are distinct and none is registered.
pub open spec fn available_rule<V>(uris: Seq<Seq<char>>, registered: Seq<(Seq<char>, V)>) -> Result<
    (),
    ToolErrorModel,
> {
    match distinct_rule(uris) {
        Err(e) => Err(e),
        Ok(()) => match first_registered(uris, registered, 0) {
            Some(u) => Err(ToolErrorModel::DuplicateResource { uri: u }),
            None => Ok(()),
        },
    }
}

/// Ensure generated JSON resource URIs are unique within one batch.
pub fn ensure_json_resource_specs_distinct(specs: &[McpJsonResourceSpec]) -> (r: Result<
    (),
    McpToolError,
>)
    ensures
        result_model(r) == distinct_rule(spec_uris(specs@)),
{
    let ghost uris = spec_uris(specs@);
    let n = specs.len();
    let mut j: usize = 0;
    while j < n
        invariant
            n == specs@.len(),
            uris == spec_uris(specs@),
            j <= n,
            first_repeat(uris, 0) == first_repeat(uris, j as int),
        decreases n - j,
    {
        let mut i: usize = 0;
        while i < j
            invariant
                n == specs@.len(),
                uris == spec_uris(specs@),
                i <= j < n,
                first_repeat(uris, 0) == first_repeat(uris, j as int),
                forall|k: int| 0 <= k < i ==> uris[k] != uris[j as int],
            decreases j - i,
        {
            if str_eq(specs[i].uri(), specs[j].uri()) {
                assert(uris[i as int] == uris[j as int]);
                assert(repeats_earlier(uris, j as int));
                return Err(McpToolError::duplicate_resource(specs[j].uri()));
            }
            i = i + 1;
        }
        assert(!repeats_earlier(uris, j as int));
        j = j + 1;
    }
    Ok(())
}

/// Copies of the definitions of a batch of distinct JSON resources.
pub fn json_resource_definitions(specs: &[McpJsonResourceSpec]) -> (r: Result<
    Vec<ResourceDefinition>,
    McpToolError,
>)
    ensures
        match r {
            Ok(v) => distinct_rule(spec_uris(specs@)) is Ok && v@.len() == specs@.len() && forall|
                i: int,
            |
                0 <= i < v@.len() ==> same_resource(
                    #[trigger] v@[i],
                    specs@[i].spec_definition(),
                ),
            Err(e) => distinct_rule(spec_uris(specs@)) == Err::<(), ToolErrorModel>(e@),
        },
{
    match ensure_json_resource_specs_distinct(specs) {
        Ok(()) => {},
        Err(e) => {
            return Err(e);
        },
    }
    let n = specs.len();
    let mut out: Vec<ResourceDefinition> = Vec::new();
    let mut i: usize = 0;
    while i < n
        invariant
            n == specs@.len(),
            i <= n,
            out@.len() == i,
            forall|k: int|
                0 <= k < i ==> same_resource(#[trigger] out@[k], specs@[k].spec_definition()),
        decreases n - i,
    {
        out.push(specs[i].definition().copy());
        i = i + 1;
    }
    Ok(out)
}

/// Ensure generated JSON resource URIs are unique and not already
/// registered.
pub fn ensure_json_resource_specs_available<T, R, P>(
    server: &McpServer<T, R, P>,
    specs: &[McpJsonResourceSpec],
) -> (r: Result<(), McpToolError>)
    ensures
        result_model(r) == available_rule(spec_uris(specs@), server.spec_resources()),
{
    match ensure_json_resource_specs_distinct(specs) {
        Ok(()) => {},
        Err(e) => {
            return Err(e);
        },
    }
    let ghost uris = spec_uris(specs@);
    let ghost reg = server.spec_resources();
    let n = specs.len();
    let mut j: usize = 0;
    while j < n
        invariant
            n == specs@.len(),
            uris == spec_uris(specs@),
            reg == server.spec_resources(),
            j <= n,
            distinct_rule(uris) is Ok,
            first_registered(uris, reg, 0) == first_registered(uris, reg, j as int),
        decreases n - j,
    {
        if server.contains_resource(specs[j].uri()) {
            return Err(McpToolError::duplicate_resource(specs[j].uri()));
        }
        j = j + 1;
    }
    Ok(())
}

proof fn lemma_insert_entry<V>(e: Seq<(Seq<char>, V)>, p: int, k: Seq<char>, v: V, x: Seq<char>)
    requires
        0 <= p <= e.len(),
    ensures
        has_entry(e.insert(p, (k, v)), x) <==> (has_entry(e, x) || x == k),
{
    let ne = e.insert(p, (k, v));
    if has_entry(e, x) {
        let i = choose|i: int| 0 <= i < e.len() && e[i].0 == x;
        if i < p {
            assert(ne[i] == e[i]);
        } else {
            assert(ne[i + 1] == e[i]);
        }
    }
    if x == k {
        assert(ne[p].0 == k);
    }
    if has_entry(ne, x) {
        let i = choose|i: int| 0 <= i < ne.len() && ne[i].0 == x;
        if i < p {
            assert(ne[i] == e[i]);
        } else if i > p {
            assert(ne[i] == e[i - 1]);
        }
    }
}

proof fn lemma_no_repeat_distinct(uris: Seq<Seq<char>>, j: int, i: int)
    requires
        first_repeat(uris, 0) is None,
        0 <= i < j < uris.len(),
    ensures
        uris[i] != uris[j],
{
    lemma_no_repeat_from(uris, 0, j);
    assert(!repeats_earlier(uris, j));
}

proof fn lemma_no_repeat_from(uris: Seq<Seq<char>>, start: int, j: int)
    requires
        0 <= start <= j < uris.len(),
        first_repeat(uris, start) is None,
    ensures
        !repeats_earlier(uris, j),
    decreases j - start,
{
    if start < j {
        lemma_no_repeat_from(uris, start + 1, j);
    }
}

proof fn lemma_none_registered_from<V>(
    uris: Seq<Seq<char>>,
    reg: Seq<(Seq<char>, V)>,
    start: int,
    j: int,
)
    requires
        0 <= start <= j < uris.len(),
        first_registered(uris, reg, start) is None,
    ensures
        !has_entry(reg, uris[j]),
    decreases j - start,
{
    if start < j {
        lemma_none_registered_from(uris, reg, start + 1, j);
    }
}

/// Register generated JSON resources, failing, with the server unchanged,
/// when a URI is duplicated within the batch or already registered.
pub fn register_json_resource_specs<T, R: JsonResourceReader, P>(
    server: &mut McpServer<T, R, P>,
    specs: Vec<McpJsonResourceSpec>,
) -> (r: Result<(), McpToolError>)
    ensures
        result_model(r) == available_rule(spec_uris(specs@), old(server).spec_resources()),
        final(server).spec_tools() == old(server).spec_tools(),
        final(server).spec_prompts() == old(server).spec_prompts(),
        final(server).spec_templates() == old(server).spec_templates(),
        r is Err ==> final(server).spec_resources() == old(server).spec_resources(),
        r is Ok ==> final(server).spec_resources().len() == old(server).spec_resources().len()
            + specs@.len() && forall|x: Seq<char>|
            has_entry(final(server).spec_resources(), x) <==> (has_entry(
                old(server).spec_resources(),
                x,
            ) || spec_uris(specs@).contains(x)),
{
    match ensure_json_resource_specs_available(server, specs.as_slice()) {
        Ok(()) => {},
        Err(e) => {
            return Err(e);
        },
    }
    let ghost uris = spec_uris(specs@);
    let ghost start = server.spec_resources();
    let n = specs.len();
    let mut rest = specs;
    let mut j: usize = 0;
    while j < n
        invariant
            n == uris.len(),
            j <= n,
            rest@.len() == n - j,
            forall|k: int| 0 <= k < rest@.len() ==> #[trigger] rest@[k].spec_uri() == uris[j + k],
            available_rule(uris, start) is Ok,
            start == old(server).spec_resources(),
            server.spec_tools() == old(server).spec_tools(),
            server.spec_prompts() == old(server).spec_prompts(),
            server.spec_templates() == old(server).spec_templates(),
            server.spec_resources().len() == start.len() + j,
            forall|x: Seq<char>|
                has_entry(server.spec_resources(), x) <==> (has_entry(start, x)
                    || uris.subrange(0, j as int).contains(x)),
        decreases n - j,
    {
        let spec = rest.remove(0);
        let (uri, definition, value) = spec.into_parts();
        let ghost u = uri@;
        assert(u == uris[j as int]);
        proof {
            lemma_none_registered_from(uris, start, 0, j as int);
            let pre = uris.subrange(0, j as int);
            if pre.contains(u) {
                let i = choose|i: int| 0 <= i < pre.len() && #[trigger] pre[i] == u;
                lemma_no_repeat_distinct(uris, j as int, i);
            }
            assert(!has_entry(server.spec_resources(), u));
        }
        let ghost before = server.spec_resources();
        let ghost d = definition;
        let reader = R::json_reader(uri, value);
        let ghost rd = reader;
        assert(d.uri@ == u);
        match server.add_resource(definition, reader) {
            Ok(()) => {},
            Err(e) => {
                return Err(e);
            },
        }
        proof {
            assert(exists|p: int|
                0 <= p <= before.len() && server.spec_resources() == before.insert(p, (u, (d, rd))));
            let p = choose|p: int|
                0 <= p <= before.len() && server.spec_resources() == before.insert(p, (u, (d, rd)));
            let pre0 = uris.subrange(0, j as int);
            let pre1 = uris.subrange(0, j as int + 1);
            assert forall|x: Seq<char>|
                #![trigger has_entry(server.spec_resources(), x)]
                has_entry(server.spec_resources(), x) <==> (has_entry(start, x) || pre1.contains(
                    x,
                )) by {
                lemma_insert_entry(before, p, u, (d, rd), x);
                assert(has_entry(before, x) <==> (has_entry(start, x) || pre0.contains(x)));
                assert(pre1[j as int] == u);
                if pre1.contains(x) && x != u {
                    let i = choose|i: int| 0 <= i < pre1.len() && #[trigger] pre1[i] == x;
                    assert(pre0[i] == x);
                }
                if pre0.contains(x) {
                    let i = choose|i: int| 0 <= i < pre0.len() && #[trigger] pre0[i] == x;
                    assert(pre1[i] == x);
                }
                if x == u {
                    assert(pre1[j as int] == x);
                }
            }
        }
        j = j + 1;
    }
    assert(uris.subrange(0, n as int) =~= uris);
    Ok(())
}

/// Register generated JSON resources unless every URI is already present;
/// a partly present set fails as a duplicate.
pub fn register_json_resource_specs_if_missing<T, R: JsonResourceReader, P>(
    server: &mut McpServer<T, R, P>,
    specs: Vec<McpJsonResourceSpec>,
) -> (r: Result<(), McpToolError>)
    ensures
        final(server).spec_tools() == old(server).spec_tools(),
        final(server).spec_prompts() == old(server).spec_prompts(),
        final(server).spec_templates() == old(server).spec_templates(),
        if forall|i: int|
            0 <= i < specs@.len() ==> has_entry(
                old(server).spec_resources(),
                #[trigger] spec_uris(specs@)[i],
            ) {
            r is Ok && final(server).spec_resources() == old(server).spec_resources()
        } else {
            result_model(r) == available_rule(spec_uris(specs@), old(server).spec_resources())
        },
{
    let ghost uris = spec_uris(specs@);
    let n = specs.len();
    let mut i: usize = 0;
    let mut all_present = true;
    while i < n
        invariant
            n == specs@.len(),
            uris == spec_uris(specs@),
            i <= n,
            all_present == forall|k: int|
                0 <= k < i ==> has_entry(server.spec_resources(), #[trigger] uris[k]),
        decreases n - i,
    {
        let present = server.contains_resource(specs[i].uri());
        proof {
            if all_present && present {
                assert forall|k: int|
                    0 <= k < i + 1 implies has_entry(server.spec_resources(), #[trigger] uris[k]) by {
                    if k == i {
                        assert(uris[k] == specs@[k].spec_uri());
                    }
                }
            }
            if !present {
                assert(!has_entry(server.spec_resources(), uris[i as int]));
            }
        }
        all_present = all_present && present;
        i = i + 1;
    }
    if all_present {
        return Ok(());
    }
    register_json_resource_specs(server, specs)
}

} // verus!
