//! Component shapes and the metadata recording that a source field uses one.

use crate::capabilities::{
    ComponentCapabilities, ComponentPrototyping, RenderCapability, ValueBindingCapability,
};
use crate::mcp_input::{McpInput, McpInputShape};
use crate::rust_syntax::{RustPath, RustType};
use vstd::prelude::*;
use vstd::string::*;

verus! {

/// Framework-neutral metadata published by a component shape. Each item has
/// a default: no prototyping suffix, no capabilities, unsupported MCP input.
pub trait ComponentShapeMetadata {
    /// Generator-facing prototyping metadata owned by the shape.
    fn prototyping() -> (r: ComponentPrototyping)
        default_ensures
            r.field_suffix is None,
    {
        ComponentPrototyping::new()
    }

    /// Framework-neutral runtime capabilities published by the shape.
    fn capabilities() -> (r: ComponentCapabilities)
        default_ensures
            r.spec_render() == RenderCapability::Disabled,
            r.spec_value_binding() == ValueBindingCapability::Disabled,
    {
        ComponentCapabilities::new()
    }

    /// Coarse model-controlled input metadata published by the shape.
    fn shape_mcp_input() -> (r: McpInput)
        default_ensures
            r.shape() == McpInputShape::Unsupported,
    {
        McpInput::unsupported()
    }
}

/// Marker for component shapes declared through a trusted declaration
/// surface.
pub trait DeclaredComponentShape: ComponentShapeMetadata {

}

/// Marker that a component shape supports a value or field type.
pub trait ComponentShapeFor<Value>: ComponentShapeMetadata {
    /// Coarse model-controlled input metadata for this shape/value pair; by
    /// default the shape-level input.
    fn mcp_input() -> (r: McpInput)
        default_ensures
            call_ensures(<Self as ComponentShapeMetadata>::shape_mcp_input, (), r),
    {
        <Self as ComponentShapeMetadata>::shape_mcp_input()
    }
}

/// Typed borrowed source field name used in component shape metadata.
#[derive(Clone, Copy, Debug, PartialEq, Eq, Hash, PartialOrd, Ord)]
pub struct ComponentFieldName<'a>(&'a str);

impl<'a> View for ComponentFieldName<'a> {
    type V = Seq<char>;

    closed spec fn view(&self) -> Seq<char> {
        self.0@
    }
}

impl<'a> ComponentFieldName<'a> {
    /// Creates a typed field-name wrapper from borrowed identifier text.
    pub fn new(value: &'a str) -> (r: Self)
        ensures
            r@ == value@,
    {
        ComponentFieldName(value)
    }

    /// Returns the wrapped source field name.
    pub fn as_str(self) -> (r: &'a str)
        ensures
            r@ == self@,
    {
        self.0
    }

    /// The field name as an owned string.
    pub fn to_string(self) -> (r: String)
        ensures
            r@ == self@,
    {
        String::from_str(self.0)
    }
}

impl<'a> AsRef<str> for ComponentFieldName<'a> {
    fn as_ref(&self) -> &str {
        self.0
    }
}

impl<'a> From<&'a str> for ComponentFieldName<'a> {
    fn from(value: &'a str) -> (r: Self) {
        ComponentFieldName(value)
    }
}

impl<'a> vstd::std_specs::convert::FromSpecImpl<&'a str> for ComponentFieldName<'a> {
    open spec fn obeys_from_spec() -> bool {
        true
    }

    closed spec fn from_spec(v: &'a str) -> Self {
        ComponentFieldName(v)
    }
}

/// Framework-neutral metadata describing a field's component shape use: the
/// field, the shape path, optional field type, and shape-owned capability,
/// prototyping and MCP input metadata.
#[derive(Clone, Copy, Debug, PartialEq, Eq)]
pub struct ComponentShapeUse {
    field_name: ComponentFieldName<'static>,
    field_type: Option<RustType>,
    shape_path: RustPath,
    capabilities: ComponentCapabilities,
    prototyping: ComponentPrototyping,
    mcp_input: McpInput,
}

/// Mathematical model of a shape use.
pub struct ShapeUseModel {
    pub field_name: Seq<char>,
    pub field_type: Option<Seq<char>>,
    pub shape_path: Seq<char>,
    pub capabilities: ComponentCapabilities,
    pub prototyping: ComponentPrototyping,
    pub mcp_input: McpInput,
}

impl View for ComponentShapeUse {
    type V = ShapeUseModel;

    closed spec fn view(&self) -> ShapeUseModel {
        ShapeUseModel {
            field_name: self.field_name@,
            field_type: match self.field_type {
                Some(t) => Some(t@),
                None => None,
            },
            shape_path: self.shape_path@,
            capabilities: self.capabilities,
            prototyping: self.prototyping,
            mcp_input: self.mcp_input,
        }
    }
}

impl ComponentShapeUse {
    /// Records that `field_name` uses the component shape at `shape_path`,
    /// with no field type, no capabilities, no prototyping suffix and
    /// unsupported MCP input.
    pub fn new(field_name: ComponentFieldName<'static>, shape_path: RustPath) -> (r: Self)
        ensures
            r@.field_name == field_name@,
            r@.field_type is None,
            r@.shape_path == shape_path@,
            r@.capabilities.spec_render() == RenderCapability::Disabled,
            r@.capabilities.spec_value_binding() == ValueBindingCapability::Disabled,
            r@.prototyping.field_suffix is None,
            r@.mcp_input.shape() is Unsupported,
    {
        ComponentShapeUse {
            field_name,
            field_type: None,
            shape_path,
            capabilities: ComponentCapabilities::new(),
            prototyping: ComponentPrototyping::new(),
            mcp_input: McpInput::unsupported(),
        }
    }

    /// Records that a source field uses the component shape at `shape_path`.
    pub fn for_field(field_name: &'static str, shape_path: RustPath) -> (r: Self)
        ensures
            r@.field_name == field_name@,
            r@.field_type is None,
            r@.shape_path == shape_path@,
            r@.capabilities.spec_render() == RenderCapability::Disabled,
            r@.capabilities.spec_value_binding() == ValueBindingCapability::Disabled,
            r@.prototyping.field_suffix is None,
            r@.mcp_input.shape() is Unsupported,
    {
        Self::new(ComponentFieldName::new(field_name), shape_path)
    }

    /// Adds Rust type metadata for the source field.
    pub fn with_field_type(self, field_type: RustType) -> (r: Self)
        ensures
            r@ == (ShapeUseModel { field_type: Some(field_type@), ..self@ }),
    {
        ComponentShapeUse { field_type: Some(field_type), ..self }
    }

    /// Replaces the shape capability metadata.
    pub fn with_capabilities(self, capabilities: ComponentCapabilities) -> (r: Self)
        ensures
            r@ == (ShapeUseModel { capabilities, ..self@ }),
    {
        ComponentShapeUse { capabilities, ..self }
    }

    /// Replaces the shape prototyping metadata.
    pub fn with_prototyping(self, prototyping: ComponentPrototyping) -> (r: Self)
        ensures
            r@ == (ShapeUseModel { prototyping, ..self@ }),
    {
        ComponentShapeUse { prototyping, ..self }
    }

    /// Replaces the shape's model-controlled MCP input metadata.
    pub fn with_mcp_input(self, mcp_input: McpInput) -> (r: Self)
        ensures
            r@ == (ShapeUseModel { mcp_input, ..self@ }),
    {
        ComponentShapeUse { mcp_input, ..self }
    }

    /// Copies type-owned shape metadata from a concrete component shape: its
    /// capabilities, prototyping and MCP input replace this use's.
    pub fn with_shape_metadata<Shape>(self) -> (r: Self) where Shape: ComponentShapeMetadata
        ensures
            r@.field_name == self@.field_name,
            r@.field_type == self@.field_type,
            r@.shape_path == self@.shape_path,
            call_ensures(Shape::capabilities, (), r@.capabilities),
            call_ensures(Shape::prototyping, (), r@.prototyping),
            call_ensures(<Shape as ComponentShapeMetadata>::shape_mcp_input, (), r@.mcp_input),
    {
        let capabilities = Shape::capabilities();
        let prototyping = Shape::prototyping();
        let mcp_input = <Shape as ComponentShapeMetadata>::shape_mcp_input();
        ComponentShapeUse { capabilities, prototyping, mcp_input, ..self }
    }

    /// Copies value-specific MCP input metadata from a shape/value pair.
    pub fn with_value_mcp_input<Shape, Value>(self) -> (r: Self) where
        Shape: ComponentShapeFor<Value>,
        ensures
            r@.field_name == self@.field_name,
            r@.field_type == self@.field_type,
            r@.shape_path == self@.shape_path,
            r@.capabilities == self@.capabilities,
            r@.prototyping == self@.prototyping,
            call_ensures(<Shape as ComponentShapeFor<Value>>::mcp_input, (), r@.mcp_input),
    {
        let mcp_input = <Shape as ComponentShapeFor<Value>>::mcp_input();
        ComponentShapeUse { mcp_input, ..self }
    }

    /// Source field name.
    pub fn field_name(self) -> (r: ComponentFieldName<'static>)
        ensures
            r@ == self@.field_name,
    {
        self.field_name
    }

    /// Optional Rust type metadata for the source field.
    pub fn field_type(self) -> (r: Option<RustType>)
        ensures
            match r {
                Some(t) => self@.field_type == Some(t@),
                None => self@.field_type is None,
            },
    {
        self.field_type
    }

    /// Component shape path used by the source field.
    pub fn shape_path(self) -> (r: RustPath)
        ensures
            r@ == self@.shape_path,
    {
        self.shape_path
    }

    /// Shape capability metadata.
    pub fn capabilities(self) -> (r: ComponentCapabilities)
        ensures
            r == self@.capabilities,
    {
        self.capabilities
    }

    /// Shape prototyping metadata.
    pub fn prototyping(self) -> (r: ComponentPrototyping)
        ensures
            r == self@.prototyping,
    {
        self.prototyping
    }

    /// Shape metadata for model-controlled MCP input.
    pub fn mcp_input(self) -> (r: McpInput)
        ensures
            r == self@.mcp_input,
    {
        self.mcp_input
    }
}

} // verus!
