//! Framework-neutral metadata for model-controlled MCP input, and the
//! generated tool-name and metadata-text rules.

use crate::json::copy_str;
use crate::text::{ascii_alnum, blank, concat3, is_ascii_alnum, is_blank};
use vstd::prelude::*;
use vstd::string::*;

verus! {

/// Primitive value kinds a component shape can expose to model-controlled tools.
#[derive(Clone, Copy, Debug, PartialEq, Eq, Structural)]
pub enum McpPrimitiveKind {
    Any,
    Boolean,
    Integer,
    Number,
    Decimal,
    String,
    Date,
    DateTime,
}

/// The stable schema label of a primitive kind.
pub open spec fn primitive_label(kind: McpPrimitiveKind) -> Seq<char> {
    match kind {
        McpPrimitiveKind::Any => "any"@,
        McpPrimitiveKind::Boolean => "boolean"@,
        McpPrimitiveKind::Integer => "integer"@,
        McpPrimitiveKind::Number => "number"@,
        McpPrimitiveKind::Decimal => "decimal"@,
        McpPrimitiveKind::String => "string"@,
        McpPrimitiveKind::Date => "date"@,
        McpPrimitiveKind::DateTime => "date_time"@,
    }
}

impl McpPrimitiveKind {
    /// Returns the stable schema label for this primitive kind.
    pub fn as_str(self) -> (r: &'static str)
        ensures
            r@ == primitive_label(self),
    {
        match self {
            McpPrimitiveKind::Any => "any",
            McpPrimitiveKind::Boolean => "boolean",
            McpPrimitiveKind::Integer => "integer",
            McpPrimitiveKind::Number => "number",
            McpPrimitiveKind::Decimal => "decimal",
            McpPrimitiveKind::String => "string",
            McpPrimitiveKind::Date => "date",
            McpPrimitiveKind::DateTime => "date_time",
        }
    }
}

/// Primitive kinds that can be used as `{ "min": ..., "max": ... }` MCP range bounds.
#[derive(Clone, Copy, Debug, PartialEq, Eq, Structural)]
pub enum McpRangeBoundKind {
    Integer,
    Number,
    Decimal,
    Date,
    DateTime,
}

/// The primitive kind of a range-bound kind.
pub open spec fn bound_primitive(kind: McpRangeBoundKind) -> McpPrimitiveKind {
    match kind {
        McpRangeBoundKind::Integer => McpPrimitiveKind::Integer,
        McpRangeBoundKind::Number => McpPrimitiveKind::Number,
        McpRangeBoundKind::Decimal => McpPrimitiveKind::Decimal,
        McpRangeBoundKind::Date => McpPrimitiveKind::Date,
        McpRangeBoundKind::DateTime => McpPrimitiveKind::DateTime,
    }
}

impl McpRangeBoundKind {
    /// Returns the stable schema label for this range-bound kind.
    pub fn as_str(self) -> (r: &'static str)
        ensures
            r@ == primitive_label(bound_primitive(self)),
    {
        match self {
            McpRangeBoundKind::Integer => "integer",
            McpRangeBoundKind::Number => "number",
            McpRangeBoundKind::Decimal => "decimal",
            McpRangeBoundKind::Date => "date",
            McpRangeBoundKind::DateTime => "date_time",
        }
    }

    /// Returns the primitive kind used by this range-bound kind.
    pub fn primitive_kind(self) -> (r: McpPrimitiveKind)
        ensures
            r == bound_primitive(self),
    {
        match self {
            McpRangeBoundKind::Integer => McpPrimitiveKind::Integer,
            McpRangeBoundKind::Number => McpPrimitiveKind::Number,
            McpRangeBoundKind::Decimal => McpPrimitiveKind::Decimal,
            McpRangeBoundKind::Date => McpPrimitiveKind::Date,
            McpRangeBoundKind::DateTime => McpPrimitiveKind::DateTime,
        }
    }
}

impl From<McpRangeBoundKind> for McpPrimitiveKind {
    fn from(kind: McpRangeBoundKind) -> (r: Self) {
        kind.primitive_kind()
    }
}

impl vstd::std_specs::convert::FromSpecImpl<McpRangeBoundKind> for McpPrimitiveKind {
    open spec fn obeys_from_spec() -> bool {
        true
    }

    open spec fn from_spec(kind: McpRangeBoundKind) -> Self {
        bound_primitive(kind)
    }
}

/// Framework-neutral shape of structured MCP input accepted by a component.
#[derive(Clone, Copy, Debug, PartialEq, Eq, Structural)]
pub enum McpInputShape {
    /// The component does not expose model-controlled MCP input.
    Unsupported,
    /// A single primitive value.
    Scalar(McpPrimitiveKind),
    /// An ordered array of primitive values.
    List(McpPrimitiveKind),
    /// A unique array of primitive values.
    SetOf(McpPrimitiveKind),
    /// A range object with `min` and `max` bounds.
    Range(McpRangeBoundKind),
    /// An object with integration-defined structure.
    Object,
}

impl McpInputShape {
    /// Returns whether this shape accepts model-controlled MCP input.
    pub fn supported(self) -> (r: bool)
        ensures
            r == !(self is Unsupported),
    {
        match self {
            McpInputShape::Unsupported => false,
            _ => true,
        }
    }
}

/// Validation error for generated MCP tool metadata.
#[derive(Clone, Debug, PartialEq, Eq)]
pub enum McpToolMetadataError {
    /// The tool name is empty or contains only whitespace.
    EmptyName,
    /// The tool name starts with an unsupported character.
    InvalidNameStart,
    /// The tool name contains an unsupported character.
    InvalidNameCharacter,
    /// A human-readable metadata field is empty or contains only whitespace.
    EmptyText { label: String },
}

/// Mathematical model of [`McpToolMetadataError`].
pub enum MetadataErrorModel {
    EmptyName,
    InvalidNameStart,
    InvalidNameCharacter,
    EmptyText { label: Seq<char> },
}

impl View for McpToolMetadataError {
    type V = MetadataErrorModel;

    open spec fn view(&self) -> MetadataErrorModel {
        match self {
            McpToolMetadataError::EmptyName => MetadataErrorModel::EmptyName,
            McpToolMetadataError::InvalidNameStart => MetadataErrorModel::InvalidNameStart,
            McpToolMetadataError::InvalidNameCharacter => MetadataErrorModel::InvalidNameCharacter,
            McpToolMetadataError::EmptyText { label } => MetadataErrorModel::EmptyText {
                label: label@,
            },
        }
    }
}

/// The message of a metadata error.
pub open spec fn metadata_error_message(e: MetadataErrorModel) -> Seq<char> {
    match e {
        MetadataErrorModel::EmptyName => "tool name cannot be empty"@,
        MetadataErrorModel::InvalidNameStart => "tool name must start with an ASCII letter or number"@,
        MetadataErrorModel::InvalidNameCharacter =>
            "tool name may only contain ASCII letters, digits, '_' '-' '.'"@,
        MetadataErrorModel::EmptyText { label } => "tool "@ + label + " cannot be empty"@,
    }
}

impl McpToolMetadataError {
    /// The human-readable error message.
    pub fn message(&self) -> (r: String)
        ensures
            r@ == metadata_error_message(self@),
    {
        match self {
            McpToolMetadataError::EmptyName => String::from_str("tool name cannot be empty"),
            McpToolMetadataError::InvalidNameStart => String::from_str(
                "tool name must start with an ASCII letter or number",
            ),
            McpToolMetadataError::InvalidNameCharacter => String::from_str(
                "tool name may only contain ASCII letters, digits, '_' '-' '.'",
            ),
            McpToolMetadataError::EmptyText { label } => concat3(
                "tool ",
                label.as_str(),
                " cannot be empty",
            ),
        }
    }
}

/// Characters allowed after the first one in a generated tool name.
pub open spec fn is_tool_name_char(c: char) -> bool {
    is_ascii_alnum(c) || c == '_' || c == '-' || c == '.'
}

/// The generated tool-name rule: `Ok` for a name that is not blank, starts
/// with an ASCII letter or digit and continues with ASCII letters, digits,
/// `_`, `-` or `.`; otherwise the first rule it breaks.
pub open spec fn tool_name_check(name: Seq<char>) -> Result<(), MetadataErrorModel> {
    if is_blank(name) {
        Err(MetadataErrorModel::EmptyName)
    } else if !is_ascii_alnum(name[0]) {
        Err(MetadataErrorModel::InvalidNameStart)
    } else if exists|i: int| 1 <= i < name.len() && !is_tool_name_char(name[i]) {
        Err(MetadataErrorModel::InvalidNameCharacter)
    } else {
        Ok(())
    }
}

/// The metadata-text rule: `Ok` unless the text is blank.
pub open spec fn metadata_text_check(label: Seq<char>, value: Seq<char>) -> Result<
    (),
    MetadataErrorModel,
> {
    if is_blank(value) {
        Err(MetadataErrorModel::EmptyText { label })
    } else {
        Ok(())
    }
}

/// The model of a metadata check result.
pub open spec fn metadata_result(r: Result<(), McpToolMetadataError>) -> Result<
    (),
    MetadataErrorModel,
> {
    match r {
        Ok(()) => Ok(()),
        Err(e) => Err(e@),
    }
}

fn tool_name_char(c: char) -> (r: bool)
    ensures
        r == is_tool_name_char(c),
{
    ascii_alnum(c) || c == '_' || c == '-' || c == '.'
}

/// Validate the MCP tool-name subset used by generated integrations.
pub fn validate_mcp_tool_name(name: &str) -> (r: Result<(), McpToolMetadataError>)
    ensures
        metadata_result(r) == tool_name_check(name@),
{
    if blank(name) {
        return Err(McpToolMetadataError::EmptyName);
    }
    if !ascii_alnum(name.get_char(0)) {
        return Err(McpToolMetadataError::InvalidNameStart);
    }
    let n = name.unicode_len();
    let mut i: usize = 1;
    while i < n
        invariant
            n == name@.len(),
            1 <= i <= n,
            !is_blank(name@),
            is_ascii_alnum(name@[0]),
            forall|j: int| 1 <= j < i ==> is_tool_name_char(#[trigger] name@[j]),
        decreases n - i,
    {
        if !tool_name_char(name.get_char(i)) {
            assert(!is_tool_name_char(name@[i as int]));
            return Err(McpToolMetadataError::InvalidNameCharacter);
        }
        i = i + 1;
    }
    Ok(())
}

/// Validate human-readable MCP tool metadata text.
pub fn validate_mcp_tool_metadata_text(label: &str, value: &str) -> (r: Result<
    (),
    McpToolMetadataError,
>)
    ensures
        metadata_result(r) == metadata_text_check(label@, value@),
{
    if blank(value) {
        Err(McpToolMetadataError::EmptyText { label: copy_str(label) })
    } else {
        Ok(())
    }
}

/// Shape-owned metadata for model-controlled MCP input.
#[derive(Clone, Copy, Debug, PartialEq, Eq, Structural)]
pub struct McpInput {
    input_shape: McpInputShape,
}

impl McpInput {
    /// The input shape this metadata describes.
    pub closed spec fn shape(self) -> McpInputShape {
        self.input_shape
    }

    /// No model-controlled MCP input is supported.
    pub fn unsupported() -> (r: Self)
        ensures
            r.shape() == McpInputShape::Unsupported,
    {
        McpInput { input_shape: McpInputShape::Unsupported }
    }

    /// Accept any JSON value.
    pub fn any() -> (r: Self)
        ensures
            r.shape() == McpInputShape::Scalar(McpPrimitiveKind::Any),
    {
        Self::scalar(McpPrimitiveKind::Any)
    }

    /// Accept a boolean scalar.
    pub fn boolean() -> (r: Self)
        ensures
            r.shape() == McpInputShape::Scalar(McpPrimitiveKind::Boolean),
    {
        Self::scalar(McpPrimitiveKind::Boolean)
    }

    /// Accept an integer scalar.
    pub fn integer() -> (r: Self)
        ensures
            r.shape() == McpInputShape::Scalar(McpPrimitiveKind::Integer),
    {
        Self::scalar(McpPrimitiveKind::Integer)
    }

    /// Accept a number scalar.
    pub fn number() -> (r: Self)
        ensures
            r.shape() == McpInputShape::Scalar(McpPrimitiveKind::Number),
    {
        Self::scalar(McpPrimitiveKind::Number)
    }

    /// Accept a decimal scalar encoded as a JSON number or string.
    pub fn decimal() -> (r: Self)
        ensures
            r.shape() == McpInputShape::Scalar(McpPrimitiveKind::Decimal),
    {
        Self::scalar(McpPrimitiveKind::Decimal)
    }

    /// Accept a string scalar.
    pub fn string() -> (r: Self)
        ensures
            r.shape() == McpInputShape::Scalar(McpPrimitiveKind::String),
    {
        Self::scalar(McpPrimitiveKind::String)
    }

    /// Accept an RFC 3339 full-date string.
    pub fn date() -> (r: Self)
        ensures
            r.shape() == McpInputShape::Scalar(McpPrimitiveKind::Date),
    {
        Self::scalar(McpPrimitiveKind::Date)
    }

    /// Accept an RFC 3339 date-time string.
    pub fn date_time() -> (r: Self)
        ensures
            r.shape() == McpInputShape::Scalar(McpPrimitiveKind::DateTime),
    {
        Self::scalar(McpPrimitiveKind::DateTime)
    }

    /// Accept a scalar of the given primitive kind.
    pub fn scalar(kind: McpPrimitiveKind) -> (r: Self)
        ensures
            r.shape() == McpInputShape::Scalar(kind),
    {
        McpInput { input_shape: McpInputShape::Scalar(kind) }
    }

    /// Accept an ordered array of strings.
    pub fn string_list() -> (r: Self)
        ensures
            r.shape() == McpInputShape::List(McpPrimitiveKind::String),
    {
        Self::list(McpPrimitiveKind::String)
    }

    /// Accept an ordered array of booleans.
    pub fn boolean_list() -> (r: Self)
        ensures
            r.shape() == McpInputShape::List(McpPrimitiveKind::Boolean),
    {
        Self::list(McpPrimitiveKind::Boolean)
    }

    /// Accept an ordered array of integers.
    pub fn integer_list() -> (r: Self)
        ensures
            r.shape() == McpInputShape::List(McpPrimitiveKind::Integer),
    {
        Self::list(McpPrimitiveKind::Integer)
    }

    /// Accept an ordered array of numbers.
    pub fn number_list() -> (r: Self)
        ensures
            r.shape() == McpInputShape::List(McpPrimitiveKind::Number),
    {
        Self::list(McpPrimitiveKind::Number)
    }

    /// Accept an ordered array of decimals encoded as JSON numbers or strings.
    pub fn decimal_list() -> (r: Self)
        ensures
            r.shape() == McpInputShape::List(McpPrimitiveKind::Decimal),
    {
        Self::list(McpPrimitiveKind::Decimal)
    }

    /// Accept an ordered array of RFC 3339 full-date strings.
    pub fn date_list() -> (r: Self)
        ensures
            r.shape() == McpInputShape::List(McpPrimitiveKind::Date),
    {
        Self::list(McpPrimitiveKind::Date)
    }

    /// Accept an ordered array of RFC 3339 date-time strings.
    pub fn date_time_list() -> (r: Self)
        ensures
            r.shape() == McpInputShape::List(McpPrimitiveKind::DateTime),
    {
        Self::list(McpPrimitiveKind::DateTime)
    }

    /// Accept an ordered array of primitive values.
    pub fn list(items: McpPrimitiveKind) -> (r: Self)
        ensures
            r.shape() == McpInputShape::List(items),
    {
        McpInput { input_shape: McpInputShape::List(items) }
    }

    /// Accept a unique array of strings.
    pub fn string_set() -> (r: Self)
        ensures
            r.shape() == McpInputShape::SetOf(McpPrimitiveKind::String),
    {
        Self::set(McpPrimitiveKind::String)
    }

    /// Accept a unique array of booleans.
    pub fn boolean_set() -> (r: Self)
        ensures
            r.shape() == McpInputShape::SetOf(McpPrimitiveKind::Boolean),
    {
        Self::set(McpPrimitiveKind::Boolean)
    }

    /// Accept a unique array of integers.
    pub fn integer_set() -> (r: Self)
        ensures
            r.shape() == McpInputShape::SetOf(McpPrimitiveKind::Integer),
    {
        Self::set(McpPrimitiveKind::Integer)
    }

    /// Accept a unique array of numbers.
    pub fn number_set() -> (r: Self)
        ensures
            r.shape() == McpInputShape::SetOf(McpPrimitiveKind::Number),
    {
        Self::set(McpPrimitiveKind::Number)
    }

    /// Accept a unique array of decimals encoded as JSON numbers or strings.
    pub fn decimal_set() -> (r: Self)
        ensures
            r.shape() == McpInputShape::SetOf(McpPrimitiveKind::Decimal),
    {
        Self::set(McpPrimitiveKind::Decimal)
    }

    /// Accept a unique array of RFC 3339 full-date strings.
    pub fn date_set() -> (r: Self)
        ensures
            r.shape() == McpInputShape::SetOf(McpPrimitiveKind::Date),
    {
        Self::set(McpPrimitiveKind::Date)
    }

    /// Accept a unique array of RFC 3339 date-time strings.
    pub fn date_time_set() -> (r: Self)
        ensures
            r.shape() == McpInputShape::SetOf(McpPrimitiveKind::DateTime),
    {
        Self::set(McpPrimitiveKind::DateTime)
    }

    /// Accept a unique array of primitive values.
    pub fn set(items: McpPrimitiveKind) -> (r: Self)
        ensures
            r.shape() == McpInputShape::SetOf(items),
    {
        McpInput { input_shape: McpInputShape::SetOf(items) }
    }

    /// Accept a decimal `{ "min": ..., "max": ... }` range object.
    pub fn decimal_range() -> (r: Self)
        ensures
            r.shape() == McpInputShape::Range(McpRangeBoundKind::Decimal),
    {
        Self::range(McpRangeBoundKind::Decimal)
    }

    /// Accept an integer `{ "min": ..., "max": ... }` range object.
    pub fn integer_range() -> (r: Self)
        ensures
            r.shape() == McpInputShape::Range(McpRangeBoundKind::Integer),
    {
        Self::range(McpRangeBoundKind::Integer)
    }

    /// Accept a number `{ "min": ..., "max": ... }` range object.
    pub fn number_range() -> (r: Self)
        ensures
            r.shape() == McpInputShape::Range(McpRangeBoundKind::Number),
    {
        Self::range(McpRangeBoundKind::Number)
    }

    /// Accept a date `{ "min": ..., "max": ... }` range object.
    pub fn date_range() -> (r: Self)
        ensures
            r.shape() == McpInputShape::Range(McpRangeBoundKind::Date),
    {
        Self::range(McpRangeBoundKind::Date)
    }

    /// Accept a date-time `{ "min": ..., "max": ... }` range object.
    pub fn date_time_range() -> (r: Self)
        ensures
            r.shape() == McpInputShape::Range(McpRangeBoundKind::DateTime),
    {
        Self::range(McpRangeBoundKind::DateTime)
    }

    /// Accept a `{ "min": ..., "max": ... }` range object of the given kind.
    pub fn range(bound: McpRangeBoundKind) -> (r: Self)
        ensures
            r.shape() == McpInputShape::Range(bound),
    {
        McpInput { input_shape: McpInputShape::Range(bound) }
    }

    /// Accept an object with integration-defined structure.
    pub fn object() -> (r: Self)
        ensures
            r.shape() == McpInputShape::Object,
    {
        McpInput { input_shape: McpInputShape::Object }
    }

    /// Return the structured input shape exposed to MCP integrations.
    pub fn input_shape(self) -> (r: McpInputShape)
        ensures
            r == self.shape(),
    {
        self.input_shape
    }

    /// Whether this metadata describes any supported input shape.
    pub fn supported(self) -> (r: bool)
        ensures
            r == !(self.shape() is Unsupported),
    {
        self.input_shape.supported()
    }
}

impl Default for McpInput {
    fn default() -> (r: Self)
        ensures
            r.shape() == McpInputShape::Unsupported,
    {
        Self::unsupported()
    }
}

/// Two inputs with the same shape are the same input.
pub proof fn lemma_input_shape_determines(a: McpInput, b: McpInput)
    requires
        a.shape() == b.shape(),
    ensures
        a == b,
{
}

} // verus!
