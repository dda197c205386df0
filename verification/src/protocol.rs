//! MCP protocol records the library builds: tool, resource and prompt
//! definitions, and tool, resource and prompt results.

use crate::json::{copy_str, JsonMap, JsonValue};
use vstd::prelude::*;
use vstd::string::*;

verus! {

/// The text of an optional string.
pub open spec fn opt_text(o: Option<String>) -> Option<Seq<char>> {
    match o {
        Some(s) => Some(s@),
        None => None,
    }
}

/// The texts of a list of strings.
pub open spec fn texts(v: Seq<String>) -> Seq<Seq<char>> {
    Seq::new(v.len(), |i: int| v[i]@)
}

/// A copy of an optional string.
pub fn copy_opt(o: &Option<String>) -> (r: Option<String>)
    ensures
        opt_text(r) == opt_text(*o),
{
    match o {
        Some(s) => Some(copy_str(s.as_str())),
        None => None,
    }
}

/// The theme an icon is designed for.
#[derive(Clone, Copy, Debug, PartialEq, Eq, Structural)]
pub enum McpIconTheme {
    /// For use on a light background.
    Light,
    /// For use on a dark background.
    Dark,
}

/// Whether a tool supports task-based execution.
#[derive(Clone, Copy, Debug, PartialEq, Eq, Structural)]
pub enum McpToolTaskSupport {
    /// The tool cannot run as a task.
    Forbidden,
    /// The tool may run as a task.
    Optional,
    /// The tool must run as a task.
    Required,
}

/// An icon of a tool definition.
#[derive(Debug)]
pub struct McpIcon {
    pub src: String,
    pub mime_type: Option<String>,
    pub sizes: Option<Vec<String>>,
    pub theme: Option<McpIconTheme>,
}

/// Hints describing a tool to clients.
#[derive(Debug)]
pub struct McpToolAnnotations {
    pub title: Option<String>,
    pub read_only_hint: Option<bool>,
    pub destructive_hint: Option<bool>,
    pub idempotent_hint: Option<bool>,
    pub open_world_hint: Option<bool>,
}

/// Execution metadata of a tool definition.
#[derive(Clone, Copy, Debug, PartialEq, Eq)]
pub struct McpToolExecution {
    pub task_support: Option<McpToolTaskSupport>,
}

/// An MCP tool definition.
#[derive(Debug)]
pub struct ToolDefinition {
    pub name: String,
    pub title: Option<String>,
    pub description: Option<String>,
    pub input_schema: JsonMap,
    pub output_schema: Option<JsonMap>,
    pub annotations: Option<McpToolAnnotations>,
    pub icons: Option<Vec<McpIcon>>,
    pub execution: Option<McpToolExecution>,
}

/// A concrete MCP resource definition.
#[derive(Debug)]
pub struct ResourceDefinition {
    pub uri: String,
    pub name: String,
    pub title: Option<String>,
    pub description: Option<String>,
    pub mime_type: Option<String>,
}

/// An MCP resource template definition.
#[derive(Debug)]
pub struct ResourceTemplateDefinition {
    pub uri_template: String,
    pub name: String,
    pub title: Option<String>,
    pub description: Option<String>,
    pub mime_type: Option<String>,
}

/// An argument of a prompt definition.
#[derive(Debug)]
pub struct McpPromptArgument {
    pub name: String,
    pub title: Option<String>,
    pub description: Option<String>,
    pub required: Option<bool>,
}

/// An MCP prompt definition.
#[derive(Debug)]
pub struct PromptDefinition {
    pub name: String,
    pub title: Option<String>,
    pub description: Option<String>,
    pub arguments: Option<Vec<McpPromptArgument>>,
}

/// A content block of a tool result: text.
#[derive(Debug)]
pub enum ContentBlock {
    Text(String),
}

/// The result of a tool call.
#[derive(Debug)]
pub struct ToolCallResult {
    pub content: Vec<ContentBlock>,
    pub structured_content: Option<JsonValue>,
    pub is_error: bool,
}

/// Text contents of a resource.
#[derive(Debug)]
pub struct McpResourceContents {
    pub uri: String,
    pub mime_type: Option<String>,
    pub text: String,
}

/// The result of reading a resource.
#[derive(Debug)]
pub struct McpResourceResult {
    pub contents: Vec<McpResourceContents>,
}

/// The role of a prompt message's author.
#[derive(Clone, Copy, Debug, PartialEq, Eq, Structural)]
pub enum McpPromptMessageRole {
    User,
    Assistant,
}

/// A text message of a prompt result.
#[derive(Debug)]
pub struct McpPromptMessage {
    pub role: McpPromptMessageRole,
    pub text: String,
}

/// The result of getting a prompt.
#[derive(Debug)]
pub struct McpPromptResult {
    pub description: Option<String>,
    pub messages: Vec<McpPromptMessage>,
}

impl ContentBlock {
    /// A text content block.
    pub fn text(text: String) -> (r: Self)
        ensures
            r matches ContentBlock::Text(t) && t@ == text@,
    {
        ContentBlock::Text(text)
    }
}

impl ToolCallResult {
    /// A successful result with the given content.
    pub fn success(content: Vec<ContentBlock>) -> (r: Self)
        ensures
            r.content@ == content@,
            r.structured_content is None,
            !r.is_error,
    {
        ToolCallResult { content, structured_content: None, is_error: false }
    }

    /// An error result with the given content.
    pub fn error(content: Vec<ContentBlock>) -> (r: Self)
        ensures
            r.content@ == content@,
            r.structured_content is None,
            r.is_error,
    {
        ToolCallResult { content, structured_content: None, is_error: true }
    }
}

impl McpIcon {
    /// A copy of the icon.
    pub fn copy(&self) -> (r: Self)
        ensures
            r.src@ == self.src@,
            opt_text(r.mime_type) == opt_text(self.mime_type),
            r.theme == self.theme,
            match (r.sizes, self.sizes) {
                (Some(a), Some(b)) => texts(a@) == texts(b@),
                (None, None) => true,
                _ => false,
            },
    {
        let sizes = match &self.sizes {
            Some(v) => Some(copy_strings(v)),
            None => None,
        };
        McpIcon {
            src: copy_str(self.src.as_str()),
            mime_type: copy_opt(&self.mime_type),
            sizes,
            theme: self.theme,
        }
    }
}

/// A copy of a list of strings.
pub fn copy_strings(v: &Vec<String>) -> (r: Vec<String>)
    ensures
        texts(r@) == texts(v@),
{
    let n = v.len();
    let mut out: Vec<String> = Vec::new();
    let mut i: usize = 0;
    while i < n
        invariant
            n == v@.len(),
            i <= n,
            out@.len() == i,
            forall|j: int| 0 <= j < i ==> (#[trigger] out@[j])@ == v@[j]@,
        decreases n - i,
    {
        out.push(copy_str(v[i].as_str()));
        i = i + 1;
    }
    assert(texts(out@) =~= texts(v@));
    out
}

impl ResourceDefinition {
    /// A copy of the definition.
    pub fn copy(&self) -> (r: Self)
        ensures
            same_resource(r, *self),
    {
        ResourceDefinition {
            uri: copy_str(self.uri.as_str()),
            name: copy_str(self.name.as_str()),
            title: copy_opt(&self.title),
            description: copy_opt(&self.description),
            mime_type: copy_opt(&self.mime_type),
        }
    }
}

/// Whether two annotation records hold the same values.
pub open spec fn same_annotations(a: McpToolAnnotations, b: McpToolAnnotations) -> bool {
    &&& opt_text(a.title) == opt_text(b.title)
    &&& a.read_only_hint == b.read_only_hint
    &&& a.destructive_hint == b.destructive_hint
    &&& a.idempotent_hint == b.idempotent_hint
    &&& a.open_world_hint == b.open_world_hint
}

/// Whether two icons hold the same values.
pub open spec fn same_icon(a: McpIcon, b: McpIcon) -> bool {
    &&& a.src@ == b.src@
    &&& opt_text(a.mime_type) == opt_text(b.mime_type)
    &&& a.theme == b.theme
    &&& match (a.sizes, b.sizes) {
        (Some(x), Some(y)) => texts(x@) == texts(y@),
        (None, None) => true,
        _ => false,
    }
}

/// Whether two tool definitions hold the same values.
pub open spec fn same_tool(a: ToolDefinition, b: ToolDefinition) -> bool {
    &&& a.name@ == b.name@
    &&& opt_text(a.title) == opt_text(b.title)
    &&& opt_text(a.description) == opt_text(b.description)
    &&& a.input_schema@ == b.input_schema@
    &&& match (a.output_schema, b.output_schema) {
        (Some(x), Some(y)) => x@ == y@,
        (None, None) => true,
        _ => false,
    }
    &&& match (a.annotations, b.annotations) {
        (Some(x), Some(y)) => same_annotations(x, y),
        (None, None) => true,
        _ => false,
    }
    &&& match (a.icons, b.icons) {
        (Some(x), Some(y)) => x@.len() == y@.len() && forall|i: int|
            0 <= i < x@.len() ==> same_icon(#[trigger] x@[i], y@[i]),
        (None, None) => true,
        _ => false,
    }
    &&& a.execution == b.execution
}

/// Whether two prompt arguments hold the same values.
pub open spec fn same_argument(a: McpPromptArgument, b: McpPromptArgument) -> bool {
    &&& a.name@ == b.name@
    &&& opt_text(a.title) == opt_text(b.title)
    &&& opt_text(a.description) == opt_text(b.description)
    &&& a.required == b.required
}

/// Whether two prompt definitions hold the same values.
pub open spec fn same_prompt(a: PromptDefinition, b: PromptDefinition) -> bool {
    &&& a.name@ == b.name@
    &&& opt_text(a.title) == opt_text(b.title)
    &&& opt_text(a.description) == opt_text(b.description)
    &&& match (a.arguments, b.arguments) {
        (Some(x), Some(y)) => x@.len() == y@.len() && forall|i: int|
            0 <= i < x@.len() ==> same_argument(#[trigger] x@[i], y@[i]),
        (None, None) => true,
        _ => false,
    }
}

/// Whether two resource template definitions hold the same values.
pub open spec fn same_template(a: ResourceTemplateDefinition, b: ResourceTemplateDefinition) -> bool {
    &&& a.uri_template@ == b.uri_template@
    &&& a.name@ == b.name@
    &&& opt_text(a.title) == opt_text(b.title)
    &&& opt_text(a.description) == opt_text(b.description)
    &&& opt_text(a.mime_type) == opt_text(b.mime_type)
}

/// Whether two resource definitions hold the same values.
pub open spec fn same_resource(a: ResourceDefinition, b: ResourceDefinition) -> bool {
    &&& a.uri@ == b.uri@
    &&& a.name@ == b.name@
    &&& opt_text(a.title) == opt_text(b.title)
    &&& opt_text(a.description) == opt_text(b.description)
    &&& opt_text(a.mime_type) == opt_text(b.mime_type)
}

impl McpToolAnnotations {
    /// A copy of the annotations.
    pub fn copy(&self) -> (r: Self)
        ensures
            same_annotations(r, *self),
    {
        McpToolAnnotations {
            title: copy_opt(&self.title),
            read_only_hint: self.read_only_hint,
            destructive_hint: self.destructive_hint,
            idempotent_hint: self.idempotent_hint,
            open_world_hint: self.open_world_hint,
        }
    }
}

impl ToolDefinition {
    /// A copy of the definition.
    pub fn copy(&self) -> (r: Self)
        ensures
            same_tool(r, *self),
    {
        let output_schema = match &self.output_schema {
            Some(m) => Some(m.copy()),
            None => None,
        };
        let annotations = match &self.annotations {
            Some(a) => Some(a.copy()),
            None => None,
        };
        let icons = match &self.icons {
            Some(v) => {
                let n = v.len();
                let mut out: Vec<McpIcon> = Vec::new();
                let mut i: usize = 0;
                while i < n
                    invariant
                        n == v@.len(),
                        i <= n,
                        out@.len() == i,
                        forall|j: int| 0 <= j < i ==> same_icon(#[trigger] out@[j], v@[j]),
                    decreases n - i,
                {
                    out.push(v[i].copy());
                    i = i + 1;
                }
                Some(out)
            },
            None => None,
        };
        ToolDefinition {
            name: copy_str(self.name.as_str()),
            title: copy_opt(&self.title),
            description: copy_opt(&self.description),
            input_schema: self.input_schema.copy(),
            output_schema,
            annotations,
            icons,
            execution: self.execution,
        }
    }
}

impl McpPromptArgument {
    /// A copy of the argument.
    pub fn copy(&self) -> (r: Self)
        ensures
            same_argument(r, *self),
    {
        McpPromptArgument {
            name: copy_str(self.name.as_str()),
            title: copy_opt(&self.title),
            description: copy_opt(&self.description),
            required: self.required,
        }
    }
}

impl PromptDefinition {
    /// A copy of the definition.
    pub fn copy(&self) -> (r: Self)
        ensures
            same_prompt(r, *self),
    {
        let arguments = match &self.arguments {
            Some(v) => {
                let n = v.len();
                let mut out: Vec<McpPromptArgument> = Vec::new();
                let mut i: usize = 0;
                while i < n
                    invariant
                        n == v@.len(),
                        i <= n,
                        out@.len() == i,
                        forall|j: int| 0 <= j < i ==> same_argument(#[trigger] out@[j], v@[j]),
                    decreases n - i,
                {
                    out.push(v[i].copy());
                    i = i + 1;
                }
                Some(out)
            },
            None => None,
        };
        PromptDefinition {
            name: copy_str(self.name.as_str()),
            title: copy_opt(&self.title),
            description: copy_opt(&self.description),
            arguments,
        }
    }
}

impl ResourceTemplateDefinition {
    /// A copy of the definition.
    pub fn copy(&self) -> (r: Self)
        ensures
            same_template(r, *self),
    {
        ResourceTemplateDefinition {
            uri_template: copy_str(self.uri_template.as_str()),
            name: copy_str(self.name.as_str()),
            title: copy_opt(&self.title),
            description: copy_opt(&self.description),
            mime_type: copy_opt(&self.mime_type),
        }
    }
}

impl McpToolAnnotations {
    /// Annotations with no title and no hints.
    pub fn new() -> (r: Self)
        ensures
            r.title is None,
            r.read_only_hint is None,
            r.destructive_hint is None,
            r.idempotent_hint is None,
            r.open_world_hint is None,
    {
        McpToolAnnotations {
            title: None,
            read_only_hint: None,
            destructive_hint: None,
            idempotent_hint: None,
            open_world_hint: None,
        }
    }

    /// Sets the read-only hint.
    pub fn read_only(self, read_only: bool) -> (r: Self)
        ensures
            r == (McpToolAnnotations { read_only_hint: Some(read_only), ..self }),
    {
        McpToolAnnotations { read_only_hint: Some(read_only), ..self }
    }

    /// Sets the destructive hint.
    pub fn destructive(self, destructive: bool) -> (r: Self)
        ensures
            r == (McpToolAnnotations { destructive_hint: Some(destructive), ..self }),
    {
        McpToolAnnotations { destructive_hint: Some(destructive), ..self }
    }

    /// Sets the idempotent hint.
    pub fn idempotent(self, idempotent: bool) -> (r: Self)
        ensures
            r == (McpToolAnnotations { idempotent_hint: Some(idempotent), ..self }),
    {
        McpToolAnnotations { idempotent_hint: Some(idempotent), ..self }
    }

    /// Sets the open-world hint.
    pub fn open_world(self, open_world: bool) -> (r: Self)
        ensures
            r == (McpToolAnnotations { open_world_hint: Some(open_world), ..self }),
    {
        McpToolAnnotations { open_world_hint: Some(open_world), ..self }
    }
}

} // verus!
