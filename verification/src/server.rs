//! The registry of an MCP server: tools, resources, resource templates and
//! prompts with the handles that serve them, registration rules, tool-call
//! dispatch and output checking.

use crate::arguments::{call_arguments, McpToolCall};
use crate::closed_schema::{closed_check, result_model, validate_value_against_closed_schema};
use crate::definitions::{
    prompt_rule, resource_rule, template_rule, tool_definition_rule, validate_prompt_definition,
    validate_resource_definition, validate_resource_template, validate_tool_definition,
};
use crate::json::{copy_str, lemma_object_view, Json, JsonMap, JsonValue};
use crate::keyed::{
    entry_keys, has_entry, lemma_lookup_after_insert, lemma_lookup_some_iff_has_entry, lookup,
    strictly_sorted, Keyed,
};
use crate::protocol::{
    opt_text, same_prompt, same_resource, same_template, same_tool, PromptDefinition,
    ResourceDefinition, ResourceTemplateDefinition, ToolCallResult, ToolDefinition,
};
use crate::schema_lookup::{schema_type_includes, type_includes};
use crate::results::{error_envelope, is_error_result, tool_error_result_for};
use crate::tool_error::{error_message, structured_error, McpToolError, ToolErrorModel};
use crate::typed::{McpToolInput, McpTypedTool};
use vstd::prelude::*;
use vstd::string::*;

verus! {

/// In-process MCP server registry: tools, resources and prompts keyed by
/// name or URI in ascending order, each with the handle that serves it, and
/// resource templates in registration order.
#[derive(Debug)]
pub struct McpServer<T, R, P> {
    server_name: String,
    server_version: String,
    tools: Keyed<(ToolDefinition, T)>,
    resources: Keyed<(ResourceDefinition, R)>,
    resource_templates: Vec<ResourceTemplateDefinition>,
    prompts: Keyed<(PromptDefinition, P)>,
}

impl<T, R, P> McpServer<T, R, P> {
    pub closed spec fn spec_name(&self) -> Seq<char> {
        self.server_name@
    }

    pub closed spec fn spec_version(&self) -> Seq<char> {
        self.server_version@
    }

    /// Registered tools, in name order.
    pub closed spec fn spec_tools(&self) -> Seq<(Seq<char>, (ToolDefinition, T))> {
        self.tools.spec_entries()
    }

    /// Registered concrete resources, in URI order.
    pub closed spec fn spec_resources(&self) -> Seq<(Seq<char>, (ResourceDefinition, R))> {
        self.resources.spec_entries()
    }

    /// Registered resource templates, in registration order.
    pub closed spec fn spec_templates(&self) -> Seq<ResourceTemplateDefinition> {
        self.resource_templates@
    }

    /// Registered prompts, in name order.
    pub closed spec fn spec_prompts(&self) -> Seq<(Seq<char>, (PromptDefinition, P))> {
        self.prompts.spec_entries()
    }

    /// Each tool and prompt is kept under its own name, each resource under
    /// its own URI.
    #[verifier::type_invariant]
    spec fn keys_match_definitions(self) -> bool {
        &&& forall|i: int|
            0 <= i < self.tools.spec_entries().len() ==> #[trigger] self.tools.spec_entries()[i].0
                == self.tools.spec_entries()[i].1.0.name@
        &&& forall|i: int|
            0 <= i < self.resources.spec_entries().len()
                ==> #[trigger] self.resources.spec_entries()[i].0
                == self.resources.spec_entries()[i].1.0.uri@
        &&& forall|i: int|
            0 <= i < self.prompts.spec_entries().len()
                ==> #[trigger] self.prompts.spec_entries()[i].0
                == self.prompts.spec_entries()[i].1.0.name@
    }

    /// A server with the advertised metadata and nothing registered.
    pub fn new(server_name: &str, server_version: &str) -> (r: Self)
        ensures
            r.spec_name() == server_name@,
            r.spec_version() == server_version@,
            r.spec_tools().len() == 0,
            r.spec_resources().len() == 0,
            r.spec_templates().len() == 0,
            r.spec_prompts().len() == 0,
    {
        McpServer {
            server_name: String::from_str(server_name),
            server_version: String::from_str(server_version),
            tools: Keyed::new(),
            resources: Keyed::new(),
            resource_templates: Vec::new(),
            prompts: Keyed::new(),
        }
    }

    /// Start building a server with the advertised metadata.
    pub fn builder(server_name: &str, server_version: &str) -> (r: McpServerBuilder<T, R, P>)
        ensures
            r.spec_state() matches Ok(s) && s.spec_name() == server_name@ && s.spec_version()
                == server_version@ && s.spec_tools().len() == 0 && s.spec_resources().len() == 0
                && s.spec_templates().len() == 0 && s.spec_prompts().len() == 0,
    {
        McpServerBuilder::new(server_name, server_version)
    }

    /// The advertised server name.
    pub fn server_name(&self) -> (r: &str)
        ensures
            r@ == self.spec_name(),
    {
        self.server_name.as_str()
    }

    /// The advertised server version.
    pub fn server_version(&self) -> (r: &str)
        ensures
            r@ == self.spec_version(),
    {
        self.server_version.as_str()
    }

    /// Register a tool handler. The definition must be valid and its name not
    /// yet registered; otherwise the server is unchanged.
    pub fn add_tool(&mut self, definition: ToolDefinition, call: T) -> (r: Result<(), McpToolError>)
        ensures
            final(self).spec_name() == old(self).spec_name(),
            final(self).spec_version() == old(self).spec_version(),
            final(self).spec_resources() == old(self).spec_resources(),
            final(self).spec_templates() == old(self).spec_templates(),
            final(self).spec_prompts() == old(self).spec_prompts(),
            match tool_definition_rule(definition) {
                Err(e) => r matches Err(x) && x@ == e && final(self).spec_tools() == old(
                    self,
                ).spec_tools(),
                Ok(()) => if has_entry(old(self).spec_tools(), definition.name@) {
                    r matches Err(x) && x@ == ToolErrorModel::DuplicateTool {
                        name: definition.name@,
                    } && final(self).spec_tools() == old(self).spec_tools()
                } else {
                    r is Ok && exists|p: int|
                        0 <= p <= old(self).spec_tools().len() && final(self).spec_tools()
                            == old(self).spec_tools().insert(
                            p,
                            (definition.name@, (definition, call)),
                        )
                },
            },
    {
        match validate_tool_definition(&definition) {
            Ok(()) => {},
            Err(e) => {
                return Err(e);
            },
        }
        let name = copy_str(definition.name.as_str());
        if self.tools.contains(name.as_str()) {
            return Err(McpToolError::duplicate_tool(name.as_str()));
        }
        proof {
            use_type_invariant(&*self);
        }
        let mut tools = Keyed::new();
        std::mem::swap(&mut tools, &mut self.tools);
        tools.insert_new(name, (definition, call));
        self.tools = tools;
        Ok(())
    }

    /// Register a typed tool handler; the definition is the one built from
    /// the input type.
    pub fn add_typed_tool<Input>(&mut self, definition: McpTypedTool<Input>, call: T) -> (r: Result<
        (),
        McpToolError,
    >)
        ensures
            final(self).spec_resources() == old(self).spec_resources(),
            final(self).spec_prompts() == old(self).spec_prompts(),
            ({
                let d = definition.spec_definition();
                match tool_definition_rule(d) {
                    Err(e) => r matches Err(x) && x@ == e && final(self).spec_tools() == old(
                        self,
                    ).spec_tools(),
                    Ok(()) => if has_entry(old(self).spec_tools(), d.name@) {
                        r matches Err(x) && x@ == ToolErrorModel::DuplicateTool { name: d.name@ }
                            && final(self).spec_tools() == old(self).spec_tools()
                    } else {
                        r is Ok && exists|p: int|
                            0 <= p <= old(self).spec_tools().len() && final(self).spec_tools()
                                == old(self).spec_tools().insert(p, (d.name@, (d, call)))
                    },
                }
            }),
    {
        self.add_tool(definition.into_definition(), call)
    }

    /// Copies of the registered tool definitions, in name order.
    pub fn list_tools(&self) -> (r: Vec<ToolDefinition>)
        ensures
            r@.len() == self.spec_tools().len(),
            forall|i: int|
                0 <= i < r@.len() ==> same_tool(#[trigger] r@[i], self.spec_tools()[i].1.0),
            strictly_sorted(Seq::new(r@.len(), |i: int| r@[i].name@)),
    {
        proof {
            use_type_invariant(self);
        }
        let n = self.tools.len();
        let mut out: Vec<ToolDefinition> = Vec::new();
        let mut i: usize = 0;
        while i < n
            invariant
                n == self.spec_tools().len(),
                i <= n,
                out@.len() == i,
                forall|j: int|
                    0 <= j < i ==> same_tool(#[trigger] out@[j], self.spec_tools()[j].1.0),
            decreases n - i,
        {
            out.push(self.tools.value_at(i).0.copy());
            i = i + 1;
        }
        proof {
            let names = Seq::new(out@.len(), |i: int| out@[i].name@);
            assert(names =~= entry_keys(self.spec_tools())) by {
                assert forall|i: int| 0 <= i < names.len() implies names[i] == entry_keys(
                    self.spec_tools(),
                )[i] by {
                    assert(same_tool(out@[i], self.spec_tools()[i].1.0));
                    assert(self.tools.spec_entries()[i].0 == self.tools.spec_entries()[i].1.0.name@);
                }
            }
        }
        out
    }

    /// Whether a tool name is already registered.
    pub fn contains_tool(&self, name: &str) -> (r: bool)
        ensures
            r == has_entry(self.spec_tools(), name@),
    {
        self.tools.contains(name)
    }

    /// Number of registered tools.
    pub fn tool_count(&self) -> (r: usize)
        ensures
            r == self.spec_tools().len(),
    {
        self.tools.len()
    }

    /// The registered tool with the given name, and its handle.
    pub fn tool(&self, name: &str) -> (r: Option<&(ToolDefinition, T)>)
        ensures
            match r {
                Some(entry) => lookup(self.spec_tools(), name@) == Some(*entry),
                None => lookup(self.spec_tools(), name@) is None,
            },
    {
        match self.tools.find(name) {
            Some(i) => {
                let entry = self.tools.value_at(i);
                assert(self.spec_tools()[i as int].1 == *entry);
                Some(entry)
            },
            None => None,
        }
    }

    /// Register a resource reader. The definition must be valid and its URI
    /// not yet registered; otherwise the server is unchanged.
    pub fn add_resource(&mut self, definition: ResourceDefinition, read: R) -> (r: Result<
        (),
        McpToolError,
    >)
        ensures
            final(self).spec_name() == old(self).spec_name(),
            final(self).spec_version() == old(self).spec_version(),
            final(self).spec_tools() == old(self).spec_tools(),
            final(self).spec_templates() == old(self).spec_templates(),
            final(self).spec_prompts() == old(self).spec_prompts(),
            match resource_rule(
                definition.uri@,
                definition.name@,
                opt_text(definition.title),
                opt_text(definition.description),
                opt_text(definition.mime_type),
            ) {
                Err(e) => r matches Err(x) && x@ == e && final(self).spec_resources() == old(
                    self,
                ).spec_resources(),
                Ok(()) => if has_entry(old(self).spec_resources(), definition.uri@) {
                    r matches Err(x) && x@ == ToolErrorModel::DuplicateResource {
                        uri: definition.uri@,
                    } && final(self).spec_resources() == old(self).spec_resources()
                } else {
                    r is Ok && exists|p: int|
                        0 <= p <= old(self).spec_resources().len() && final(self).spec_resources()
                            == old(self).spec_resources().insert(
                            p,
                            (definition.uri@, (definition, read)),
                        )
                },
            },
    {
        match validate_resource_definition(&definition) {
            Ok(()) => {},
            Err(e) => {
                return Err(e);
            },
        }
        let uri = copy_str(definition.uri.as_str());
        if self.resources.contains(uri.as_str()) {
            return Err(McpToolError::duplicate_resource(uri.as_str()));
        }
        proof {
            use_type_invariant(&*self);
        }
        let mut resources = Keyed::new();
        std::mem::swap(&mut resources, &mut self.resources);
        resources.insert_new(uri, (definition, read));
        self.resources = resources;
        Ok(())
    }

    /// Register a resource template advertised by `resources/templates/list`.
    pub fn add_resource_template(&mut self, definition: ResourceTemplateDefinition) -> (r: Result<
        (),
        McpToolError,
    >)
        ensures
            final(self).spec_name() == old(self).spec_name(),
            final(self).spec_version() == old(self).spec_version(),
            final(self).spec_tools() == old(self).spec_tools(),
            final(self).spec_resources() == old(self).spec_resources(),
            final(self).spec_prompts() == old(self).spec_prompts(),
            match template_rule(
                definition.uri_template@,
                definition.name@,
                opt_text(definition.title),
                opt_text(definition.description),
                opt_text(definition.mime_type),
            ) {
                Err(e) => r matches Err(x) && x@ == e && final(self).spec_templates() == old(
                    self,
                ).spec_templates(),
                Ok(()) => r is Ok && final(self).spec_templates() == old(
                    self,
                ).spec_templates().push(definition),
            },
    {
        match validate_resource_template(&definition) {
            Ok(()) => {},
            Err(e) => {
                return Err(e);
            },
        }
        proof {
            use_type_invariant(&*self);
        }
        let mut templates = Vec::new();
        std::mem::swap(&mut templates, &mut self.resource_templates);
        templates.push(definition);
        self.resource_templates = templates;
        Ok(())
    }

    /// Copies of the registered resource definitions, in URI order.
    pub fn list_resources(&self) -> (r: Vec<ResourceDefinition>)
        ensures
            r@.len() == self.spec_resources().len(),
            forall|i: int|
                0 <= i < r@.len() ==> same_resource(
                    #[trigger] r@[i],
                    self.spec_resources()[i].1.0,
                ),
            strictly_sorted(Seq::new(r@.len(), |i: int| r@[i].uri@)),
    {
        proof {
            use_type_invariant(self);
        }
        let n = self.resources.len();
        let mut out: Vec<ResourceDefinition> = Vec::new();
        let mut i: usize = 0;
        while i < n
            invariant
                n == self.spec_resources().len(),
                i <= n,
                out@.len() == i,
                forall|j: int|
                    0 <= j < i ==> same_resource(#[trigger] out@[j], self.spec_resources()[j].1.0),
            decreases n - i,
        {
            out.push(self.resources.value_at(i).0.copy());
            i = i + 1;
        }
        proof {
            let uris = Seq::new(out@.len(), |i: int| out@[i].uri@);
            assert(uris =~= entry_keys(self.spec_resources())) by {
                assert forall|i: int| 0 <= i < uris.len() implies uris[i] == entry_keys(
                    self.spec_resources(),
                )[i] by {
                    assert(same_resource(out@[i], self.spec_resources()[i].1.0));
                    assert(self.resources.spec_entries()[i].0
                        == self.resources.spec_entries()[i].1.0.uri@);
                }
            }
        }
        out
    }

    /// Copies of the registered resource templates, in registration order.
    pub fn list_resource_templates(&self) -> (r: Vec<ResourceTemplateDefinition>)
        ensures
            r@.len() == self.spec_templates().len(),
            forall|i: int|
                0 <= i < r@.len() ==> same_template(#[trigger] r@[i], self.spec_templates()[i]),
    {
        let n = self.resource_templates.len();
        let mut out: Vec<ResourceTemplateDefinition> = Vec::new();
        let mut i: usize = 0;
        while i < n
            invariant
                n == self.spec_templates().len(),
                i <= n,
                out@.len() == i,
                forall|j: int|
                    0 <= j < i ==> same_template(#[trigger] out@[j], self.spec_templates()[j]),
            decreases n - i,
        {
            out.push(self.resource_templates[i].copy());
            i = i + 1;
        }
        out
    }

    /// Whether a resource URI is already registered.
    pub fn contains_resource(&self, uri: &str) -> (r: bool)
        ensures
            r == has_entry(self.spec_resources(), uri@),
    {
        self.resources.contains(uri)
    }

    /// Number of registered concrete resources.
    pub fn resource_count(&self) -> (r: usize)
        ensures
            r == self.spec_resources().len(),
    {
        self.resources.len()
    }

    /// The registered resource with the given URI, and its reader.
    pub fn resource(&self, uri: &str) -> (r: Option<&(ResourceDefinition, R)>)
        ensures
            match r {
                Some(entry) => lookup(self.spec_resources(), uri@) == Some(*entry),
                None => lookup(self.spec_resources(), uri@) is None,
            },
    {
        match self.resources.find(uri) {
            Some(i) => {
                let entry = self.resources.value_at(i);
                assert(self.spec_resources()[i as int].1 == *entry);
                Some(entry)
            },
            None => None,
        }
    }

    /// Register a prompt. The definition must be valid and its name not yet
    /// registered; otherwise the server is unchanged.
    pub fn add_prompt(&mut self, definition: PromptDefinition, get: P) -> (r: Result<
        (),
        McpToolError,
    >)
        ensures
            final(self).spec_name() == old(self).spec_name(),
            final(self).spec_version() == old(self).spec_version(),
            final(self).spec_tools() == old(self).spec_tools(),
            final(self).spec_resources() == old(self).spec_resources(),
            final(self).spec_templates() == old(self).spec_templates(),
            match prompt_rule(definition) {
                Err(e) => r matches Err(x) && x@ == e && final(self).spec_prompts() == old(
                    self,
                ).spec_prompts(),
                Ok(()) => if has_entry(old(self).spec_prompts(), definition.name@) {
                    r matches Err(x) && x@ == ToolErrorModel::DuplicatePrompt {
                        name: definition.name@,
                    } && final(self).spec_prompts() == old(self).spec_prompts()
                } else {
                    r is Ok && exists|p: int|
                        0 <= p <= old(self).spec_prompts().len() && final(self).spec_prompts()
                            == old(self).spec_prompts().insert(
                            p,
                            (definition.name@, (definition, get)),
                        )
                },
            },
    {
        match validate_prompt_definition(&definition) {
            Ok(()) => {},
            Err(e) => {
                return Err(e);
            },
        }
        let name = copy_str(definition.name.as_str());
        if self.prompts.contains(name.as_str()) {
            return Err(McpToolError::duplicate_prompt(name.as_str()));
        }
        proof {
            use_type_invariant(&*self);
        }
        let mut prompts = Keyed::new();
        std::mem::swap(&mut prompts, &mut self.prompts);
        prompts.insert_new(name, (definition, get));
        self.prompts = prompts;
        Ok(())
    }

    /// Copies of the registered prompt definitions, in name order.
    pub fn list_prompts(&self) -> (r: Vec<PromptDefinition>)
        ensures
            r@.len() == self.spec_prompts().len(),
            forall|i: int|
                0 <= i < r@.len() ==> same_prompt(#[trigger] r@[i], self.spec_prompts()[i].1.0),
            strictly_sorted(Seq::new(r@.len(), |i: int| r@[i].name@)),
    {
        proof {
            use_type_invariant(self);
        }
        let n = self.prompts.len();
        let mut out: Vec<PromptDefinition> = Vec::new();
        let mut i: usize = 0;
        while i < n
            invariant
                n == self.spec_prompts().len(),
                i <= n,
                out@.len() == i,
                forall|j: int|
                    0 <= j < i ==> same_prompt(#[trigger] out@[j], self.spec_prompts()[j].1.0),
            decreases n - i,
        {
            out.push(self.prompts.value_at(i).0.copy());
            i = i + 1;
        }
        proof {
            let names = Seq::new(out@.len(), |i: int| out@[i].name@);
            assert(names =~= entry_keys(self.spec_prompts())) by {
                assert forall|i: int| 0 <= i < names.len() implies names[i] == entry_keys(
                    self.spec_prompts(),
                )[i] by {
                    assert(same_prompt(out@[i], self.spec_prompts()[i].1.0));
                    assert(self.prompts.spec_entries()[i].0
                        == self.prompts.spec_entries()[i].1.0.name@);
                }
            }
        }
        out
    }

    /// Whether a prompt name is already registered.
    pub fn contains_prompt(&self, name: &str) -> (r: bool)
        ensures
            r == has_entry(self.spec_prompts(), name@),
    {
        self.prompts.contains(name)
    }

    /// Number of registered prompts.
    pub fn prompt_count(&self) -> (r: usize)
        ensures
            r == self.spec_prompts().len(),
    {
        self.prompts.len()
    }

    /// The registered prompt with the given name, and its handle.
    pub fn prompt(&self, name: &str) -> (r: Option<&(PromptDefinition, P)>)
        ensures
            match r {
                Some(entry) => lookup(self.spec_prompts(), name@) == Some(*entry),
                None => lookup(self.spec_prompts(), name@) is None,
            },
    {
        match self.prompts.find(name) {
            Some(i) => {
                let entry = self.prompts.value_at(i);
                assert(self.spec_prompts()[i as int].1 == *entry);
                Some(entry)
            },
            None => None,
        }
    }

    /// Whether the server advertises the resources capability: some resource
    /// or resource template is registered.
    pub fn advertises_resources(&self) -> (r: bool)
        ensures
            r == (self.spec_resources().len() > 0 || self.spec_templates().len() > 0),
    {
        !self.resources.is_empty() || self.resource_templates.len() > 0
    }

    /// Whether the server advertises the prompts capability.
    pub fn advertises_prompts(&self) -> (r: bool)
        ensures
            r == (self.spec_prompts().len() > 0),
    {
        !self.prompts.is_empty()
    }

    /// The first step of a tool call: the tool's handle with the normalized
    /// call and the tool's output schema, or the finished error result for an
    /// unknown tool or non-object arguments.
    pub fn begin_tool_call(&self, name: &str, arguments: Option<JsonValue>) -> (r: ToolCallStart<
        '_,
        T,
    >)
        ensures
            match r {
                ToolCallStart::Run { handler, call, output_schema } => lookup(
                    self.spec_tools(),
                    name@,
                ) matches Some(entry) && entry.1 == *handler && call_arguments(
                    opt_json_of(arguments),
                ) == Ok::<Seq<(Seq<char>, Json)>, ToolErrorModel>(call@) && match (
                    output_schema,
                    entry.0.output_schema,
                ) {
                    (Some(a), Some(b)) => a@ == b@,
                    (None, None) => true,
                    _ => false,
                },
                ToolCallStart::Finished(result) => if lookup(self.spec_tools(), name@) is None {
                    is_error_result(
                        result,
                        error_message(ToolErrorModel::UnknownTool { name: name@ }),
                        error_envelope(structured_error(ToolErrorModel::UnknownTool { name: name@ })),
                    )
                } else {
                    call_arguments(opt_json_of(arguments)) is Err && is_error_result(
                        result,
                        error_message(ToolErrorModel::ArgumentsMustBeObject),
                        error_envelope(structured_error(ToolErrorModel::ArgumentsMustBeObject)),
                    )
                },
            },
    {
        match self.tools.find(name) {
            Some(i) => {
                let entry = self.tools.value_at(i);
                let call = match McpToolCall::from_value(arguments) {
                    Ok(call) => call,
                    Err(error) => {
                        return ToolCallStart::Finished(tool_error_result_for(error));
                    },
                };
                let output_schema = match &entry.0.output_schema {
                    Some(m) => Some(m.copy()),
                    None => None,
                };
                assert(self.spec_tools()[i as int].1 == *entry);
                ToolCallStart::Run { handler: &entry.1, call, output_schema }
            },
            None => ToolCallStart::Finished(
                tool_error_result_for(McpToolError::UnknownTool { name: copy_str(name) }),
            ),
        }
    }
}

/// `after` is `before` with the tool added under its name, all else kept.
pub open spec fn registers_tool<T, R, P>(
    before: McpServer<T, R, P>,
    after: McpServer<T, R, P>,
    definition: ToolDefinition,
    call: T,
) -> bool {
    &&& after.spec_name() == before.spec_name()
    &&& after.spec_version() == before.spec_version()
    &&& after.spec_resources() == before.spec_resources()
    &&& after.spec_templates() == before.spec_templates()
    &&& after.spec_prompts() == before.spec_prompts()
    &&& exists|p: int|
        0 <= p <= before.spec_tools().len() && after.spec_tools() == before.spec_tools().insert(
            p,
            (definition.name@, (definition, call)),
        )
}

/// `after` is `before` with the resource added under its URI, all else kept.
pub open spec fn registers_resource<T, R, P>(
    before: McpServer<T, R, P>,
    after: McpServer<T, R, P>,
    definition: ResourceDefinition,
    read: R,
) -> bool {
    &&& after.spec_name() == before.spec_name()
    &&& after.spec_version() == before.spec_version()
    &&& after.spec_tools() == before.spec_tools()
    &&& after.spec_templates() == before.spec_templates()
    &&& after.spec_prompts() == before.spec_prompts()
    &&& exists|p: int|
        0 <= p <= before.spec_resources().len() && after.spec_resources()
            == before.spec_resources().insert(p, (definition.uri@, (definition, read)))
}

/// `after` is `before` with the template appended, all else kept.
pub open spec fn registers_template<T, R, P>(
    before: McpServer<T, R, P>,
    after: McpServer<T, R, P>,
    definition: ResourceTemplateDefinition,
) -> bool {
    &&& after.spec_name() == before.spec_name()
    &&& after.spec_version() == before.spec_version()
    &&& after.spec_tools() == before.spec_tools()
    &&& after.spec_resources() == before.spec_resources()
    &&& after.spec_prompts() == before.spec_prompts()
    &&& after.spec_templates() == before.spec_templates().push(definition)
}

/// `after` is `before` with the prompt added under its name, all else kept.
pub open spec fn registers_prompt<T, R, P>(
    before: McpServer<T, R, P>,
    after: McpServer<T, R, P>,
    definition: PromptDefinition,
    get: P,
) -> bool {
    &&& after.spec_name() == before.spec_name()
    &&& after.spec_version() == before.spec_version()
    &&& after.spec_tools() == before.spec_tools()
    &&& after.spec_resources() == before.spec_resources()
    &&& after.spec_templates() == before.spec_templates()
    &&& exists|p: int|
        0 <= p <= before.spec_prompts().len() && after.spec_prompts()
            == before.spec_prompts().insert(p, (definition.name@, (definition, get)))
}

/// A tool registered by a successful `add_tool` is what `tool` then finds
/// under its name, the name counts as registered, and every other name finds
/// what it found before.
pub proof fn lemma_tool_found_after_add<T, R, P>(
    before: McpServer<T, R, P>,
    after: McpServer<T, R, P>,
    definition: ToolDefinition,
    call: T,
)
    requires
        !has_entry(before.spec_tools(), definition.name@),
        exists|p: int|
            0 <= p <= before.spec_tools().len() && after.spec_tools() == before.spec_tools().insert(
                p,
                (definition.name@, (definition, call)),
            ),
    ensures
        lookup(after.spec_tools(), definition.name@) == Some((definition, call)),
        has_entry(after.spec_tools(), definition.name@),
        forall|other: Seq<char>|
            other != definition.name@ ==> #[trigger] lookup(after.spec_tools(), other) == lookup(
                before.spec_tools(),
                other,
            ),
{
    let p = choose|p: int|
        0 <= p <= before.spec_tools().len() && after.spec_tools() == before.spec_tools().insert(
            p,
            (definition.name@, (definition, call)),
        );
    lemma_lookup_after_insert(before.spec_tools(), p, definition.name@, (definition, call));
    lemma_lookup_some_iff_has_entry(after.spec_tools(), definition.name@);
}

/// A resource registered by a successful `add_resource` is what `resource`
/// then finds under its URI, and every other URI finds what it found before.
pub proof fn lemma_resource_found_after_add<T, R, P>(
    before: McpServer<T, R, P>,
    after: McpServer<T, R, P>,
    definition: ResourceDefinition,
    read: R,
)
    requires
        !has_entry(before.spec_resources(), definition.uri@),
        exists|p: int|
            0 <= p <= before.spec_resources().len() && after.spec_resources()
                == before.spec_resources().insert(p, (definition.uri@, (definition, read))),
    ensures
        lookup(after.spec_resources(), definition.uri@) == Some((definition, read)),
        has_entry(after.spec_resources(), definition.uri@),
        forall|other: Seq<char>|
            other != definition.uri@ ==> #[trigger] lookup(after.spec_resources(), other)
                == lookup(before.spec_resources(), other),
{
    let p = choose|p: int|
        0 <= p <= before.spec_resources().len() && after.spec_resources()
            == before.spec_resources().insert(p, (definition.uri@, (definition, read)));
    lemma_lookup_after_insert(before.spec_resources(), p, definition.uri@, (definition, read));
    lemma_lookup_some_iff_has_entry(after.spec_resources(), definition.uri@);
}

/// A prompt registered by a successful `add_prompt` is what `prompt` then
/// finds under its name, and every other name finds what it found before.
pub proof fn lemma_prompt_found_after_add<T, R, P>(
    before: McpServer<T, R, P>,
    after: McpServer<T, R, P>,
    definition: PromptDefinition,
    get: P,
)
    requires
        !has_entry(before.spec_prompts(), definition.name@),
        exists|p: int|
            0 <= p <= before.spec_prompts().len() && after.spec_prompts()
                == before.spec_prompts().insert(p, (definition.name@, (definition, get))),
    ensures
        lookup(after.spec_prompts(), definition.name@) == Some((definition, get)),
        has_entry(after.spec_prompts(), definition.name@),
        forall|other: Seq<char>|
            other != definition.name@ ==> #[trigger] lookup(after.spec_prompts(), other)
                == lookup(before.spec_prompts(), other),
{
    let p = choose|p: int|
        0 <= p <= before.spec_prompts().len() && after.spec_prompts()
            == before.spec_prompts().insert(p, (definition.name@, (definition, get)));
    lemma_lookup_after_insert(before.spec_prompts(), p, definition.name@, (definition, get));
    lemma_lookup_some_iff_has_entry(after.spec_prompts(), definition.name@);
}

impl<T, R, P> McpServer<T, R, P> {
    /// Calls a tool: an unknown tool or non-object arguments give an error
    /// result; otherwise `run` executes the tool's handle on the normalized
    /// call and the result is checked against the tool's output schema.
    pub fn call_tool<F: Fn(&T, McpToolCall) -> ToolCallResult>(
        &self,
        name: &str,
        arguments: Option<JsonValue>,
        run: F,
    ) -> (r: ToolCallResult)
        requires
            forall|handler: &T, call: McpToolCall| run.requires((handler, call)),
        ensures
            match lookup(self.spec_tools(), name@) {
                None => is_error_result(
                    r,
                    error_message(ToolErrorModel::UnknownTool { name: name@ }),
                    error_envelope(structured_error(ToolErrorModel::UnknownTool { name: name@ })),
                ),
                Some(entry) => match call_arguments(opt_json_of(arguments)) {
                    Err(e) => is_error_result(
                        r,
                        error_message(e),
                        error_envelope(structured_error(e)),
                    ),
                    Ok(args) => exists|call: McpToolCall, out: ToolCallResult|
                        call@ == args && run.ensures((&entry.1, call), out) && match output_problem(
                            name@,
                            match entry.0.output_schema {
                                Some(m) => Some(m@),
                                None => None,
                            },
                            opt_json_of(out.structured_content),
                            out.is_error,
                        ) {
                            None => r == out,
                            Some(e) => is_error_result(
                                r,
                                error_message(e),
                                error_envelope(structured_error(e)),
                            ),
                        },
                },
            },
    {
        match self.begin_tool_call(name, arguments) {
            ToolCallStart::Finished(result) => result,
            ToolCallStart::Run { handler, call, output_schema } => {
                let out = run(handler, call);
                let schema = match &output_schema {
                    Some(m) => Some(m),
                    None => None,
                };
                validate_tool_call_result(name, schema, out)
            },
        }
    }
}

/// Decodes a tool call into a typed handler's input; a decoding error becomes
/// its error result.
pub fn typed_tool_input<Input: McpToolInput>(tool_call: McpToolCall) -> (r: Result<
    Input,
    ToolCallResult,
>)
    ensures
        exists|decoded: Result<Input, McpToolError>|
            call_ensures(Input::from_tool_call, (tool_call,), decoded) && match decoded {
                Ok(input) => r == Ok::<Input, ToolCallResult>(input),
                Err(e) => r matches Err(res) && is_error_result(
                    res,
                    error_message(e@),
                    error_envelope(structured_error(e@)),
                ),
            },
{
    match Input::from_tool_call(tool_call) {
        Ok(input) => Ok(input),
        Err(error) => Err(tool_error_result_for(error)),
    }
}

/// Runs a typed tool handler on a tool call: the call is decoded into the
/// handler's input, and a decoding error is answered with its error result.
pub fn call_typed_handler<Input: McpToolInput, Call: Fn(Input) -> ToolCallResult>(
    call: &Call,
    tool_call: McpToolCall,
) -> (r: ToolCallResult)
    requires
        forall|input: Input| call.requires((input,)),
    ensures
        exists|decoded: Result<Input, McpToolError>|
            call_ensures(Input::from_tool_call, (tool_call,), decoded) && match decoded {
                Ok(input) => call.ensures((input,), r),
                Err(e) => is_error_result(
                    r,
                    error_message(e@),
                    error_envelope(structured_error(e@)),
                ),
            },
{
    match typed_tool_input::<Input>(tool_call) {
        Ok(input) => call(input),
        Err(result) => result,
    }
}

/// The model of an optional value.
pub open spec fn opt_json_of(o: Option<JsonValue>) -> Option<Json> {
    match o {
        Some(v) => Some(v@),
        None => None,
    }
}

/// How a tool call proceeds: run the handler on the call, then check its
/// result against the output schema; or a result already decided.
pub enum ToolCallStart<'a, T> {
    Run { handler: &'a T, call: McpToolCall, output_schema: Option<JsonMap> },
    Finished(ToolCallResult),
}

pub open spec fn missing_output_message() -> Seq<char> {
    "tool declares output_schema but returned no structured_content"@
}

pub open spec fn non_object_output_message() -> Seq<char> {
    "tool declares output_schema with object root but returned non-object structured_content"@
}

/// What is wrong with a tool's result under its output schema, if anything:
/// results of tools without an output schema, and error results, pass; a
/// success must carry structured content, an object where the schema's type
/// includes `object`, that passes the closed-schema check.
pub open spec fn output_problem(
    name: Seq<char>,
    schema: Option<Seq<(Seq<char>, Json)>>,
    structured: Option<Json>,
    is_error: bool,
) -> Option<ToolErrorModel> {
    match schema {
        None => None,
        Some(s) => if is_error {
            None
        } else {
            match structured {
                None => Some(
                    ToolErrorModel::InvalidToolOutput { name, message: missing_output_message() },
                ),
                Some(v) => if !(v is Object) && type_includes(s, "object"@) {
                    Some(
                        ToolErrorModel::InvalidToolOutput {
                            name,
                            message: non_object_output_message(),
                        },
                    )
                } else {
                    match closed_check("structured_content"@, Json::Object(s), v) {
                        Err(e) => Some(
                            ToolErrorModel::InvalidToolOutput { name, message: error_message(e) },
                        ),
                        Ok(()) => None,
                    }
                },
            }
        },
    }
}

/// Check a tool's result against its output schema: the result itself when it
/// passes, else an invalid-tool-output error result.
pub fn validate_tool_call_result(
    tool_name: &str,
    output_schema: Option<&JsonMap>,
    result: ToolCallResult,
) -> (r: ToolCallResult)
    ensures
        match output_problem(
            tool_name@,
            match output_schema {
                Some(m) => Some(m@),
                None => None,
            },
            opt_json_of(result.structured_content),
            result.is_error,
        ) {
            None => r == result,
            Some(e) => is_error_result(r, error_message(e), error_envelope(structured_error(e))),
        },
{
    proof {
        reveal_strlit("structured_content");
    }
    let schema = match output_schema {
        Some(s) => s,
        None => {
            return result;
        },
    };
    if result.is_error {
        return result;
    }
    let problem = match &result.structured_content {
        None => Some(
            McpToolError::invalid_tool_output(
                tool_name,
                "tool declares output_schema but returned no structured_content",
            ),
        ),
        Some(structured) => {
            if structured.as_object().is_none() && schema_type_includes(schema, "object") {
                Some(
                    McpToolError::invalid_tool_output(
                        tool_name,
                        "tool declares output_schema with object root but returned non-object structured_content",
                    ),
                )
            } else {
                let schema_map = schema.copy();
                proof {
                    lemma_object_view(schema_map);
                }
                let schema_value = JsonValue::Object(schema_map);
                match validate_value_against_closed_schema(
                    "structured_content",
                    &schema_value,
                    structured,
                ) {
                    Ok(()) => None,
                    Err(error) => {
                        let message = error.message();
                        Some(McpToolError::invalid_tool_output(tool_name, message.as_str()))
                    },
                }
            }
        },
    };
    match problem {
        Some(error) => tool_error_result_for(error),
        None => result,
    }
}

/// Builder for composing a server registration by registration; the first
/// failing registration is kept and later ones are skipped.
#[derive(Debug)]
pub struct McpServerBuilder<T, R, P> {
    server: Result<McpServer<T, R, P>, McpToolError>,
}

impl<T, R, P> McpServerBuilder<T, R, P> {
    /// The server being built, or the first registration error.
    pub closed spec fn spec_state(&self) -> Result<McpServer<T, R, P>, McpToolError> {
        self.server
    }

    /// A builder for a server with the advertised metadata.
    pub fn new(server_name: &str, server_version: &str) -> (r: Self)
        ensures
            r.spec_state() matches Ok(s) && s.spec_name() == server_name@ && s.spec_version()
                == server_version@ && s.spec_tools().len() == 0 && s.spec_resources().len() == 0
                && s.spec_templates().len() == 0 && s.spec_prompts().len() == 0,
    {
        McpServerBuilder { server: Ok(McpServer::new(server_name, server_version)) }
    }

    /// Runs a registrar against the server being built; its error becomes the
    /// builder's error.
    pub fn register<F: FnOnce(&mut McpServer<T, R, P>) -> Result<(), McpToolError>>(
        self,
        register: F,
    ) -> (r: Self)
        requires
            forall|server: &mut McpServer<T, R, P>| register.requires((server,)),
        ensures
            match self.spec_state() {
                Err(e) => r.spec_state() == Err::<McpServer<T, R, P>, McpToolError>(e),
                Ok(s) => exists|m: &mut McpServer<T, R, P>, res: Result<(), McpToolError>|
                    *m == s && register.ensures((m,), res) && match res {
                        Ok(()) => r.spec_state() == Ok::<McpServer<T, R, P>, McpToolError>(
                            *final(m),
                        ),
                        Err(e) => r.spec_state() == Err::<McpServer<T, R, P>, McpToolError>(e),
                    },
            },
    {
        match self.server {
            Ok(mut server) => match register(&mut server) {
                Ok(()) => McpServerBuilder { server: Ok(server) },
                Err(e) => McpServerBuilder { server: Err(e) },
            },
            Err(e) => McpServerBuilder { server: Err(e) },
        }
    }

    /// Adds a tool to the server being built.
    pub fn tool(self, definition: ToolDefinition, call: T) -> (r: Self)
        ensures
            match self.spec_state() {
                Err(e) => r.spec_state() == Err::<McpServer<T, R, P>, McpToolError>(e),
                Ok(s) => match tool_definition_rule(definition) {
                    Err(e) => r.spec_state() matches Err(x) && x@ == e,
                    Ok(()) => if has_entry(s.spec_tools(), definition.name@) {
                        r.spec_state() matches Err(x) && x@ == ToolErrorModel::DuplicateTool {
                            name: definition.name@,
                        }
                    } else {
                        r.spec_state() matches Ok(s2) && registers_tool(s, s2, definition, call)
                    },
                },
            },
    {
        match self.server {
            Ok(mut server) => match server.add_tool(definition, call) {
                Ok(()) => McpServerBuilder { server: Ok(server) },
                Err(e) => McpServerBuilder { server: Err(e) },
            },
            Err(e) => McpServerBuilder { server: Err(e) },
        }
    }

    /// Adds a typed tool to the server being built.
    pub fn typed_tool<Input>(self, definition: McpTypedTool<Input>, call: T) -> (r: Self)
        ensures
            match self.spec_state() {
                Err(e) => r.spec_state() == Err::<McpServer<T, R, P>, McpToolError>(e),
                Ok(s) => {
                    let d = definition.spec_definition();
                    match tool_definition_rule(d) {
                        Err(e) => r.spec_state() matches Err(x) && x@ == e,
                        Ok(()) => if has_entry(s.spec_tools(), d.name@) {
                            r.spec_state() matches Err(x) && x@ == ToolErrorModel::DuplicateTool {
                                name: d.name@,
                            }
                        } else {
                            r.spec_state() matches Ok(s2) && registers_tool(s, s2, d, call)
                        },
                    }
                },
            },
    {
        self.tool(definition.into_definition(), call)
    }

    /// Adds a resource to the server being built.
    pub fn resource(self, definition: ResourceDefinition, read: R) -> (r: Self)
        ensures
            match self.spec_state() {
                Err(e) => r.spec_state() == Err::<McpServer<T, R, P>, McpToolError>(e),
                Ok(s) => match resource_rule(
                    definition.uri@,
                    definition.name@,
                    opt_text(definition.title),
                    opt_text(definition.description),
                    opt_text(definition.mime_type),
                ) {
                    Err(e) => r.spec_state() matches Err(x) && x@ == e,
                    Ok(()) => if has_entry(s.spec_resources(), definition.uri@) {
                        r.spec_state() matches Err(x) && x@ == ToolErrorModel::DuplicateResource {
                            uri: definition.uri@,
                        }
                    } else {
                        r.spec_state() matches Ok(s2) && registers_resource(s, s2, definition, read)
                    },
                },
            },
    {
        match self.server {
            Ok(mut server) => match server.add_resource(definition, read) {
                Ok(()) => McpServerBuilder { server: Ok(server) },
                Err(e) => McpServerBuilder { server: Err(e) },
            },
            Err(e) => McpServerBuilder { server: Err(e) },
        }
    }

    /// Adds a resource template to the server being built.
    pub fn resource_template(self, definition: ResourceTemplateDefinition) -> (r: Self)
        ensures
            match self.spec_state() {
                Err(e) => r.spec_state() == Err::<McpServer<T, R, P>, McpToolError>(e),
                Ok(s) => match template_rule(
                    definition.uri_template@,
                    definition.name@,
                    opt_text(definition.title),
                    opt_text(definition.description),
                    opt_text(definition.mime_type),
                ) {
                    Err(e) => r.spec_state() matches Err(x) && x@ == e,
                    Ok(()) => r.spec_state() matches Ok(s2) && registers_template(s, s2, definition),
                },
            },
    {
        match self.server {
            Ok(mut server) => match server.add_resource_template(definition) {
                Ok(()) => McpServerBuilder { server: Ok(server) },
                Err(e) => McpServerBuilder { server: Err(e) },
            },
            Err(e) => McpServerBuilder { server: Err(e) },
        }
    }

    /// Adds a prompt to the server being built.
    pub fn prompt(self, definition: PromptDefinition, get: P) -> (r: Self)
        ensures
            match self.spec_state() {
                Err(e) => r.spec_state() == Err::<McpServer<T, R, P>, McpToolError>(e),
                Ok(s) => match prompt_rule(definition) {
                    Err(e) => r.spec_state() matches Err(x) && x@ == e,
                    Ok(()) => if has_entry(s.spec_prompts(), definition.name@) {
                        r.spec_state() matches Err(x) && x@ == ToolErrorModel::DuplicatePrompt {
                            name: definition.name@,
                        }
                    } else {
                        r.spec_state() matches Ok(s2) && registers_prompt(s, s2, definition, get)
                    },
                },
            },
    {
        match self.server {
            Ok(mut server) => match server.add_prompt(definition, get) {
                Ok(()) => McpServerBuilder { server: Ok(server) },
                Err(e) => McpServerBuilder { server: Err(e) },
            },
            Err(e) => McpServerBuilder { server: Err(e) },
        }
    }

    /// Finish the builder: the composed server, or the first registration
    /// error.
    pub fn build(self) -> (r: Result<McpServer<T, R, P>, McpToolError>)
        ensures
            r == self.spec_state(),
    {
        self.server
    }
}

} // verus!
