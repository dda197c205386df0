//! Static, application-facing metadata for generated MCP tools: name,
//! title, description, hints, icons and task support.

use crate::closed_schema::result_model;
use crate::definitions::{
    and_then, each_required_rule, hints_rule, icon_ok, icon_rule, lemma_icon_rule_ok, name_rule,
    opt_required_rule, opt_text_ok,
    required_text_rule,
    opt_text_rule, validate_required_metadata_text, validate_tool_annotation_hints,
    validate_tool_metadata_text, validate_tool_name,
};
use crate::protocol::{
    opt_text, texts, McpIcon, McpIconTheme, McpToolAnnotations, McpToolExecution,
    McpToolTaskSupport,
};
use crate::mcp_input::tool_name_check;
use crate::tool_error::{McpToolError, ToolErrorModel};
use crate::definitions::{opt_schema, tool_build_rule, tool_built_from, tool_definition};
use crate::protocol::ToolDefinition;
use crate::schema::McpSchema;
use vstd::prelude::*;
use vstd::string::*;

verus! {

/// The text of an optional static string.
pub open spec fn opt_str(o: Option<&'static str>) -> Option<Seq<char>> {
    match o {
        Some(s) => Some(s@),
        None => None,
    }
}

/// The texts of a list of static strings.
pub open spec fn str_texts(v: Seq<&'static str>) -> Seq<Seq<char>> {
    Seq::new(v.len(), |i: int| v[i]@)
}

/// Static icon metadata for an MCP tool definition.
#[derive(Clone, Copy, Debug, PartialEq, Eq)]
pub struct McpToolIcon {
    src: &'static str,
    mime_type: Option<&'static str>,
    sizes: &'static [&'static str],
    theme: Option<McpIconTheme>,
}

/// Mathematical model of an icon.
pub struct IconModel {
    pub src: Seq<char>,
    pub mime_type: Option<Seq<char>>,
    pub sizes: Seq<Seq<char>>,
    pub theme: Option<McpIconTheme>,
}

impl View for McpToolIcon {
    type V = IconModel;

    closed spec fn view(&self) -> IconModel {
        IconModel {
            src: self.src@,
            mime_type: opt_str(self.mime_type),
            sizes: str_texts(self.sizes@),
            theme: self.theme,
        }
    }
}

/// The icon definition an icon publishes: its sizes only when it declares
/// some.
pub open spec fn icon_definition_matches(icon: IconModel, d: McpIcon) -> bool {
    &&& d.src@ == icon.src
    &&& opt_text(d.mime_type) == icon.mime_type
    &&& d.theme == icon.theme
    &&& if icon.sizes.len() == 0 {
        d.sizes is None
    } else {
        d.sizes matches Some(v) && texts(v@) == icon.sizes
    }
}

fn static_strings(v: &'static [&'static str]) -> (r: Vec<String>)
    ensures
        texts(r@) == str_texts(v@),
{
    let n = v.len();
    let mut out: Vec<String> = Vec::new();
    let mut i: usize = 0;
    while i < n
        invariant
            n == v@.len(),
            i <= n,
            out@.len() == i,
            forall|j: int| 0 <= j < i ==> (#[trigger] out@[j])@ == v@[j]@,
        decreases n - i,
    {
        out.push(String::from_str(v[i]));
        i = i + 1;
    }
    assert(texts(out@) =~= str_texts(v@));
    out
}

impl McpToolIcon {
    /// Icon metadata from an icon resource URI or data URI.
    pub fn new(src: &'static str) -> (r: Self)
        ensures
            r@ == (IconModel { src: src@, mime_type: None, sizes: Seq::empty(), theme: None }),
    {
        let r = McpToolIcon { src, mime_type: None, sizes: &[], theme: None };
        assert(r@.sizes =~= Seq::<Seq<char>>::empty());
        r
    }

    /// Override the icon MIME type.
    pub fn with_mime_type(self, mime_type: &'static str) -> (r: Self)
        ensures
            r@ == (IconModel { mime_type: Some(mime_type@), ..self@ }),
    {
        McpToolIcon { mime_type: Some(mime_type), ..self }
    }

    /// Declare supported icon sizes such as `"48x48"` or `"any"`.
    pub fn with_sizes(self, sizes: &'static [&'static str]) -> (r: Self)
        ensures
            r@ == (IconModel { sizes: str_texts(sizes@), ..self@ }),
    {
        McpToolIcon { sizes, ..self }
    }

    /// Declare the icon's intended theme.
    pub fn with_theme(self, theme: McpIconTheme) -> (r: Self)
        ensures
            r@ == (IconModel { theme: Some(theme), ..self@ }),
    {
        McpToolIcon { theme: Some(theme), ..self }
    }

    /// Returns the icon source URI.
    pub fn src(self) -> (r: &'static str)
        ensures
            r@ == self@.src,
    {
        self.src
    }

    /// Returns the icon MIME type.
    pub fn mime_type(self) -> (r: Option<&'static str>)
        ensures
            opt_str(r) == self@.mime_type,
    {
        self.mime_type
    }

    /// Returns declared icon sizes.
    pub fn sizes(self) -> (r: &'static [&'static str])
        ensures
            str_texts(r@) == self@.sizes,
    {
        self.sizes
    }

    /// Returns the icon theme.
    pub fn theme(self) -> (r: Option<McpIconTheme>)
        ensures
            r == self@.theme,
    {
        self.theme
    }

    /// The icon definition published for this icon.
    pub fn into_definition_icon(self) -> (r: McpIcon)
        ensures
            icon_definition_matches(self@, r),
    {
        let sizes = if self.sizes.len() == 0 {
            None
        } else {
            Some(static_strings(self.sizes))
        };
        McpIcon {
            src: String::from_str(self.src),
            mime_type: match self.mime_type {
                Some(m) => Some(String::from_str(m)),
                None => None,
            },
            sizes,
            theme: self.theme,
        }
    }

    /// Validate the icon: non-blank source, MIME type and sizes.
    pub fn validate(self) -> (r: Result<(), McpToolError>)
        ensures
            result_model(r) == icon_rule(self@.src, self@.mime_type, self@.sizes),
    {
        match validate_required_metadata_text("icon src", self.src) {
            Ok(()) => {},
            Err(e) => {
                return Err(e);
            },
        }
        match self.mime_type {
            Some(m) => match validate_required_metadata_text("icon mime_type", m) {
                Ok(()) => {},
                Err(e) => {
                    return Err(e);
                },
            },
            None => {},
        }
        let ghost all = str_texts(self.sizes@);
        let n = self.sizes.len();
        let mut i: usize = 0;
        assert(all.subrange(0, n as int) =~= all);
        while i < n
            invariant
                n == self.sizes@.len(),
                all == str_texts(self.sizes@),
                required_text_rule("icon src"@, self@.src) == Ok::<(), ToolErrorModel>(()),
                opt_required_rule("icon mime_type"@, self@.mime_type) == Ok::<(), ToolErrorModel>(()),
                i <= n,
                each_required_rule("icon size"@, all) == each_required_rule(
                    "icon size"@,
                    all.subrange(i as int, n as int),
                ),
            decreases n - i,
        {
            let ghost rest = all.subrange(i as int, n as int);
            assert(rest[0] == self.sizes@[i as int]@);
            assert(rest.drop_first() =~= all.subrange(i as int + 1, n as int));
            match validate_required_metadata_text("icon size", self.sizes[i]) {
                Ok(()) => {},
                Err(e) => {
                    return Err(e);
                },
            }
            i = i + 1;
        }
        assert(all.subrange(n as int, n as int) =~= Seq::<Seq<char>>::empty());
        Ok(())
    }
}

/// The icon rule on each static icon in order.
pub open spec fn tool_icons_rule(icons: Seq<IconModel>) -> Result<(), ToolErrorModel>
    decreases icons.len(),
{
    if icons.len() == 0 {
        Ok(())
    } else {
        and_then(
            icon_rule(icons[0].src, icons[0].mime_type, icons[0].sizes),
            tool_icons_rule(icons.drop_first()),
        )
    }
}

/// The models of a list of icons.
pub open spec fn icon_views(icons: Seq<McpToolIcon>) -> Seq<IconModel> {
    Seq::new(icons.len(), |i: int| icons[i]@)
}

/// Optional application-facing metadata for a generated MCP tool.
#[derive(Clone, Copy, Debug, PartialEq, Eq)]
pub struct McpToolMetadata {
    name: Option<&'static str>,
    title: Option<&'static str>,
    description: Option<&'static str>,
    read_only_hint: Option<bool>,
    destructive_hint: Option<bool>,
    idempotent_hint: Option<bool>,
    open_world_hint: Option<bool>,
    icons: &'static [McpToolIcon],
    task_support: Option<McpToolTaskSupport>,
}

/// Mathematical model of tool metadata.
pub struct ToolMetadataModel {
    pub name: Option<Seq<char>>,
    pub title: Option<Seq<char>>,
    pub description: Option<Seq<char>>,
    pub read_only_hint: Option<bool>,
    pub destructive_hint: Option<bool>,
    pub idempotent_hint: Option<bool>,
    pub open_world_hint: Option<bool>,
    pub icons: Seq<IconModel>,
    pub task_support: Option<McpToolTaskSupport>,
}

impl View for McpToolMetadata {
    type V = ToolMetadataModel;

    closed spec fn view(&self) -> ToolMetadataModel {
        ToolMetadataModel {
            name: opt_str(self.name),
            title: opt_str(self.title),
            description: opt_str(self.description),
            read_only_hint: self.read_only_hint,
            destructive_hint: self.destructive_hint,
            idempotent_hint: self.idempotent_hint,
            open_world_hint: self.open_world_hint,
            icons: icon_views(self.icons@),
            task_support: self.task_support,
        }
    }
}

/// Empty tool metadata.
pub open spec fn empty_metadata() -> ToolMetadataModel {
    ToolMetadataModel {
        name: None,
        title: None,
        description: None,
        read_only_hint: None,
        destructive_hint: None,
        idempotent_hint: None,
        open_world_hint: None,
        icons: Seq::empty(),
        task_support: None,
    }
}

/// The metadata rule: consistent hints, then a valid name override, a
/// non-blank title and description, and valid icons.
pub open spec fn metadata_rule(m: ToolMetadataModel) -> Result<(), ToolErrorModel> {
    and_then(
        hints_rule(m.read_only_hint, m.destructive_hint),
        and_then(
            match m.name {
                Some(n) => name_rule(n),
                None => Ok(()),
            },
            and_then(
                opt_text_rule("title"@, m.title),
                and_then(opt_text_rule("description"@, m.description), tool_icons_rule(m.icons)),
            ),
        ),
    )
}

/// Whether any hint is set.
pub open spec fn has_hints(m: ToolMetadataModel) -> bool {
    m.read_only_hint is Some || m.destructive_hint is Some || m.idempotent_hint is Some
        || m.open_world_hint is Some
}

impl McpToolMetadata {
    /// Create empty tool metadata.
    pub fn new() -> (r: Self)
        ensures
            r@ == empty_metadata(),
    {
        let r = McpToolMetadata {
            name: None,
            title: None,
            description: None,
            read_only_hint: None,
            destructive_hint: None,
            idempotent_hint: None,
            open_world_hint: None,
            icons: &[],
            task_support: None,
        };
        assert(r@.icons =~= Seq::<IconModel>::empty());
        r
    }

    /// Override the generated tool name.
    pub fn with_name(self, name: &'static str) -> (r: Self)
        ensures
            r@ == (ToolMetadataModel { name: Some(name@), ..self@ }),
    {
        McpToolMetadata { name: Some(name), ..self }
    }

    /// Set the human-readable tool title.
    pub fn with_title(self, title: &'static str) -> (r: Self)
        ensures
            r@ == (ToolMetadataModel { title: Some(title@), ..self@ }),
    {
        McpToolMetadata { title: Some(title), ..self }
    }

    /// Set the human-readable tool description.
    pub fn with_description(self, description: &'static str) -> (r: Self)
        ensures
            r@ == (ToolMetadataModel { description: Some(description@), ..self@ }),
    {
        McpToolMetadata { description: Some(description), ..self }
    }

    /// Set the MCP read-only hint.
    pub fn with_read_only_hint(self, read_only: bool) -> (r: Self)
        ensures
            r@ == (ToolMetadataModel { read_only_hint: Some(read_only), ..self@ }),
    {
        McpToolMetadata { read_only_hint: Some(read_only), ..self }
    }

    /// Set the MCP destructive hint.
    pub fn with_destructive_hint(self, destructive: bool) -> (r: Self)
        ensures
            r@ == (ToolMetadataModel { destructive_hint: Some(destructive), ..self@ }),
    {
        McpToolMetadata { destructive_hint: Some(destructive), ..self }
    }

    /// Set the MCP idempotent hint.
    pub fn with_idempotent_hint(self, idempotent: bool) -> (r: Self)
        ensures
            r@ == (ToolMetadataModel { idempotent_hint: Some(idempotent), ..self@ }),
    {
        McpToolMetadata { idempotent_hint: Some(idempotent), ..self }
    }

    /// Set the MCP open-world hint.
    pub fn with_open_world_hint(self, open_world: bool) -> (r: Self)
        ensures
            r@ == (ToolMetadataModel { open_world_hint: Some(open_world), ..self@ }),
    {
        McpToolMetadata { open_world_hint: Some(open_world), ..self }
    }

    /// Set static icon metadata for the generated tool definition.
    pub fn with_icons(self, icons: &'static [McpToolIcon]) -> (r: Self)
        ensures
            r@ == (ToolMetadataModel { icons: icon_views(icons@), ..self@ }),
    {
        McpToolMetadata { icons, ..self }
    }

    /// Set task support advertised by the MCP tool definition.
    pub fn with_task_support(self, task_support: McpToolTaskSupport) -> (r: Self)
        ensures
            r@ == (ToolMetadataModel { task_support: Some(task_support), ..self@ }),
    {
        McpToolMetadata { task_support: Some(task_support), ..self }
    }

    /// Returns the explicit tool name override.
    pub fn name(self) -> (r: Option<&'static str>)
        ensures
            opt_str(r) == self@.name,
    {
        self.name
    }

    /// Returns the human-readable tool title.
    pub fn title(self) -> (r: Option<&'static str>)
        ensures
            opt_str(r) == self@.title,
    {
        self.title
    }

    /// Returns the human-readable tool description.
    pub fn description(self) -> (r: Option<&'static str>)
        ensures
            opt_str(r) == self@.description,
    {
        self.description
    }

    /// Returns the MCP read-only hint.
    pub fn read_only_hint(self) -> (r: Option<bool>)
        ensures
            r == self@.read_only_hint,
    {
        self.read_only_hint
    }

    /// Returns the MCP destructive hint.
    pub fn destructive_hint(self) -> (r: Option<bool>)
        ensures
            r == self@.destructive_hint,
    {
        self.destructive_hint
    }

    /// Returns the MCP idempotent hint.
    pub fn idempotent_hint(self) -> (r: Option<bool>)
        ensures
            r == self@.idempotent_hint,
    {
        self.idempotent_hint
    }

    /// Returns the MCP open-world hint.
    pub fn open_world_hint(self) -> (r: Option<bool>)
        ensures
            r == self@.open_world_hint,
    {
        self.open_world_hint
    }

    /// Returns static icon metadata.
    pub fn icons(self) -> (r: &'static [McpToolIcon])
        ensures
            icon_views(r@) == self@.icons,
    {
        self.icons
    }

    /// Returns task support advertised by the MCP tool definition.
    pub fn task_support(self) -> (r: Option<McpToolTaskSupport>)
        ensures
            r == self@.task_support,
    {
        self.task_support
    }

    /// Tool annotations carrying the hints and the title, when any hint is
    /// set.
    pub fn tool_annotations(self) -> (r: Option<McpToolAnnotations>)
        ensures
            has_hints(self@) <==> r is Some,
            r matches Some(a) ==> {
                &&& opt_text(a.title) == self@.title
                &&& a.read_only_hint == self@.read_only_hint
                &&& a.destructive_hint == self@.destructive_hint
                &&& a.idempotent_hint == self@.idempotent_hint
                &&& a.open_world_hint == self@.open_world_hint
            },
    {
        if self.read_only_hint.is_none() && self.destructive_hint.is_none()
            && self.idempotent_hint.is_none() && self.open_world_hint.is_none() {
            return None;
        }
        Some(
            McpToolAnnotations {
                title: match self.title {
                    Some(t) => Some(String::from_str(t)),
                    None => None,
                },
                read_only_hint: self.read_only_hint,
                destructive_hint: self.destructive_hint,
                idempotent_hint: self.idempotent_hint,
                open_world_hint: self.open_world_hint,
            },
        )
    }

    /// Icon definitions for the static icons, when there are any.
    pub fn tool_icons(self) -> (r: Option<Vec<McpIcon>>)
        ensures
            self@.icons.len() > 0 <==> r is Some,
            r matches Some(v) ==> v@.len() == self@.icons.len() && forall|i: int|
                0 <= i < v@.len() ==> icon_definition_matches(self@.icons[i], #[trigger] v@[i]),
    {
        let n = self.icons.len();
        if n == 0 {
            return None;
        }
        let mut out: Vec<McpIcon> = Vec::new();
        let mut i: usize = 0;
        while i < n
            invariant
                n == self.icons@.len(),
                i <= n,
                out@.len() == i,
                forall|j: int|
                    0 <= j < i ==> icon_definition_matches(
                        self.icons@[j]@,
                        #[trigger] out@[j],
                    ),
            decreases n - i,
        {
            out.push(self.icons[i].into_definition_icon());
            i = i + 1;
        }
        Some(out)
    }

    /// Execution metadata carrying the task support, when it is set.
    pub fn tool_execution(self) -> (r: Option<McpToolExecution>)
        ensures
            match self@.task_support {
                Some(t) => r == Some(McpToolExecution { task_support: Some(t) }),
                None => r is None,
            },
    {
        match self.task_support {
            Some(t) => Some(McpToolExecution { task_support: Some(t) }),
            None => None,
        }
    }

    /// Validate generated tool metadata.
    pub fn validate(self) -> (r: Result<(), McpToolError>)
        ensures
            result_model(r) == metadata_rule(self@),
    {
        match validate_tool_annotation_hints(self.read_only_hint, self.destructive_hint) {
            Ok(()) => {},
            Err(e) => {
                return Err(e);
            },
        }
        match self.name {
            Some(name) => match validate_tool_name(name) {
                Ok(()) => {},
                Err(e) => {
                    return Err(e);
                },
            },
            None => {},
        }
        match self.title {
            Some(title) => match validate_tool_metadata_text("title", title) {
                Ok(()) => {},
                Err(e) => {
                    return Err(e);
                },
            },
            None => {},
        }
        match self.description {
            Some(description) => match validate_tool_metadata_text("description", description) {
                Ok(()) => {},
                Err(e) => {
                    return Err(e);
                },
            },
            None => {},
        }
        let ghost all = icon_views(self.icons@);
        let n = self.icons.len();
        let mut i: usize = 0;
        assert(all.subrange(0, n as int) =~= all);
        while i < n
            invariant
                n == self.icons@.len(),
                all == icon_views(self.icons@),
                hints_rule(self@.read_only_hint, self@.destructive_hint) == Ok::<(), ToolErrorModel>(()),
                (match self@.name {
                    Some(n) => name_rule(n),
                    None => Ok(()),
                }) == Ok::<(), ToolErrorModel>(()),
                opt_text_rule("title"@, self@.title) == Ok::<(), ToolErrorModel>(()),
                opt_text_rule("description"@, self@.description) == Ok::<(), ToolErrorModel>(()),
                i <= n,
                tool_icons_rule(all) == tool_icons_rule(all.subrange(i as int, n as int)),
            decreases n - i,
        {
            let ghost rest = all.subrange(i as int, n as int);
            assert(rest[0] == self.icons@[i as int]@);
            assert(rest.drop_first() =~= all.subrange(i as int + 1, n as int));
            match self.icons[i].validate() {
                Ok(()) => {},
                Err(e) => {
                    return Err(e);
                },
            }
            i = i + 1;
        }
        assert(all.subrange(n as int, n as int) =~= Seq::<IconModel>::empty());
        Ok(())
    }
}

impl Default for McpToolMetadata {
    fn default() -> (r: Self)
        ensures
            r@ == empty_metadata(),
    {
        Self::new()
    }
}

/// The tool name a metadata record selects: its override, else the default.
pub open spec fn chosen_name(m: ToolMetadataModel, default_name: Seq<char>) -> Seq<char> {
    match m.name {
        Some(n) => n,
        None => default_name,
    }
}

/// Build and validate an MCP tool definition from generated metadata: the
/// metadata is checked first, then the definition is built with the metadata's
/// name (or the default), title and description, and carries its annotations,
/// icons and execution metadata.
pub fn tool_definition_with_metadata(
    default_name: &str,
    metadata: McpToolMetadata,
    input_schema: McpSchema,
    output_schema: Option<McpSchema>,
) -> (r: Result<ToolDefinition, McpToolError>)
    ensures
        ({
            let m = metadata@;
            let rule = and_then(
                metadata_rule(m),
                tool_build_rule(
                    chosen_name(m, default_name@),
                    m.title,
                    m.description,
                    input_schema@,
                    opt_schema(output_schema),
                ),
            );
            match r {
                Ok(d) => {
                    &&& rule is Ok
                    &&& tool_built_from(
                        d,
                        chosen_name(m, default_name@),
                        m.title,
                        m.description,
                        input_schema@,
                        opt_schema(output_schema),
                    )
                    &&& (d.annotations is Some <==> has_hints(m))
                    &&& (d.icons is Some <==> m.icons.len() > 0)
                    &&& d.execution == (match m.task_support {
                        Some(t) => Some(McpToolExecution { task_support: Some(t) }),
                        None => None,
                    })
                },
                Err(e) => rule == Err::<(), ToolErrorModel>(e@),
            }
        }),
{
    match metadata.validate() {
        Ok(()) => {},
        Err(e) => {
            return Err(e);
        },
    }
    let name = match metadata.name() {
        Some(n) => n,
        None => default_name,
    };
    let title = match metadata.title() {
        Some(t) => Some(String::from_str(t)),
        None => None,
    };
    let description = match metadata.description() {
        Some(d) => Some(String::from_str(d)),
        None => None,
    };
    let mut tool = match tool_definition(name, title, description, input_schema, output_schema) {
        Ok(t) => t,
        Err(e) => {
            return Err(e);
        },
    };
    tool.annotations = metadata.tool_annotations();
    tool.icons = metadata.tool_icons();
    tool.execution = metadata.tool_execution();
    Ok(tool)
}


proof fn lemma_tool_icons_rule_ok(icons: Seq<IconModel>)
    ensures
        tool_icons_rule(icons) is Ok <==> forall|i: int|
            0 <= i < icons.len() ==> icon_ok(
                (#[trigger] icons[i]).src,
                icons[i].mime_type,
                icons[i].sizes,
            ),
    decreases icons.len(),
{
    if icons.len() > 0 {
        let rest = icons.drop_first();
        lemma_tool_icons_rule_ok(rest);
        lemma_icon_rule_ok(icons[0].src, icons[0].mime_type, icons[0].sizes);
        assert forall|i: int| 1 <= i < icons.len() implies #[trigger] icons[i] == rest[i - 1] by {}
    }
}

/// Tool metadata is rejected exactly when its hints are both read-only and
/// destructive, its name override fails the tool-name check, its title or
/// description is blank, or one of its icons has a blank source, MIME type
/// or size.
pub proof fn lemma_metadata_accepted(m: ToolMetadataModel)
    ensures
        metadata_rule(m) is Ok <==> ({
            &&& !(m.read_only_hint == Some(true) && m.destructive_hint == Some(true))
            &&& m.name matches Some(n) ==> tool_name_check(n) is Ok
            &&& opt_text_ok(m.title)
            &&& opt_text_ok(m.description)
            &&& forall|i: int|
                0 <= i < m.icons.len() ==> icon_ok(
                    (#[trigger] m.icons[i]).src,
                    m.icons[i].mime_type,
                    m.icons[i].sizes,
                )
        }),
{
    lemma_tool_icons_rule_ok(m.icons);
}

} // verus!
