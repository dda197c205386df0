//! Shape-owned capability flags and prototyping metadata, and normalized
//! value changes.

use crate::component_suffix::{is_ident_suffix, ComponentSuffix};
use vstd::prelude::*;

verus! {

/// Whether a component shape publishes render-component metadata.
#[derive(Clone, Copy, Debug, PartialEq, Eq, Structural)]
pub enum RenderCapability {
    /// No render component is published.
    Disabled,
    /// A render component is published.
    Component,
}

impl RenderCapability {
    /// Returns whether rendering is enabled.
    pub fn enabled(self) -> (r: bool)
        ensures
            r == (self == RenderCapability::Component),
    {
        match self {
            RenderCapability::Component => true,
            RenderCapability::Disabled => false,
        }
    }
}

/// Whether a component shape publishes value-binding metadata.
#[derive(Clone, Copy, Debug, PartialEq, Eq, Structural)]
pub enum ValueBindingCapability {
    /// No value binding is published.
    Disabled,
    /// Value binding is inherited from a backing component state contract.
    Inherited,
}

impl ValueBindingCapability {
    /// Returns whether value binding is enabled.
    pub fn enabled(self) -> (r: bool)
        ensures
            r == (self == ValueBindingCapability::Inherited),
    {
        match self {
            ValueBindingCapability::Inherited => true,
            ValueBindingCapability::Disabled => false,
        }
    }
}

/// Shape-owned capability flags consumed by generators and integrations.
#[derive(Clone, Copy, Debug, PartialEq, Eq, Structural)]
pub struct ComponentCapabilities {
    render: RenderCapability,
    value_binding: ValueBindingCapability,
}

impl ComponentCapabilities {
    pub closed spec fn spec_render(self) -> RenderCapability {
        self.render
    }

    pub closed spec fn spec_value_binding(self) -> ValueBindingCapability {
        self.value_binding
    }

    /// Creates capability metadata with no optional capabilities enabled.
    pub fn new() -> (r: Self)
        ensures
            r.spec_render() == RenderCapability::Disabled,
            r.spec_value_binding() == ValueBindingCapability::Disabled,
    {
        ComponentCapabilities {
            render: RenderCapability::Disabled,
            value_binding: ValueBindingCapability::Disabled,
        }
    }

    /// Replaces the render capability.
    pub fn with_render(self, render: RenderCapability) -> (r: Self)
        ensures
            r.spec_render() == render,
            r.spec_value_binding() == self.spec_value_binding(),
    {
        ComponentCapabilities { render, ..self }
    }

    /// Replaces the value-binding capability.
    pub fn with_value_binding(self, value_binding: ValueBindingCapability) -> (r: Self)
        ensures
            r.spec_render() == self.spec_render(),
            r.spec_value_binding() == value_binding,
    {
        ComponentCapabilities { value_binding, ..self }
    }

    /// Returns the render capability.
    pub fn render(self) -> (r: RenderCapability)
        ensures
            r == self.spec_render(),
    {
        self.render
    }

    /// Returns the value-binding capability.
    pub fn value_binding(self) -> (r: ValueBindingCapability)
        ensures
            r == self.spec_value_binding(),
    {
        self.value_binding
    }

    /// Returns whether a render component is published.
    pub fn render_component(self) -> (r: bool)
        ensures
            r == (self.spec_render() == RenderCapability::Component),
    {
        self.render.enabled()
    }

    /// Returns whether value binding is enabled.
    pub fn value_binding_enabled(self) -> (r: bool)
        ensures
            r == (self.spec_value_binding() == ValueBindingCapability::Inherited),
    {
        self.value_binding.enabled()
    }
}

impl Default for ComponentCapabilities {
    fn default() -> (r: Self)
        ensures
            r.spec_render() == RenderCapability::Disabled,
            r.spec_value_binding() == ValueBindingCapability::Disabled,
    {
        Self::new()
    }
}

/// Shape-owned metadata for prototyping generators.
#[derive(Clone, Copy, Debug, PartialEq, Eq)]
pub struct ComponentPrototyping {
    /// Preferred generated prototyping helper suffix, such as `"input"` or
    /// `"select"`.
    pub field_suffix: Option<ComponentSuffix>,
}

impl ComponentPrototyping {
    /// Creates prototyping metadata with no preferred field suffix.
    pub fn new() -> (r: Self)
        ensures
            r.field_suffix is None,
    {
        ComponentPrototyping { field_suffix: None }
    }

    /// Sets the preferred generated prototyping helper suffix, which must be a
    /// valid component suffix.
    pub fn field_suffix(self, suffix: &'static str) -> (r: Self)
        requires
            is_ident_suffix(suffix@),
        ensures
            r.field_suffix matches Some(s) && s@ == suffix@,
    {
        ComponentPrototyping { field_suffix: Some(ComponentSuffix::new(suffix)) }
    }
}

impl Default for ComponentPrototyping {
    fn default() -> (r: Self)
        ensures
            r.field_suffix is None,
    {
        Self::new()
    }
}

/// Normalized value change derived from a component event.
#[derive(Clone, Debug, PartialEq, Eq)]
pub enum ValueChange<T> {
    /// The component event did not change the value.
    Unchanged,
    /// Replace the value with the supplied value.
    SetTo(T),
    /// Clear an optional value.
    Clear,
}

impl<T> ValueChange<T> {
    /// Replace the value with `value`.
    pub fn set(value: T) -> (r: Self)
        ensures
            r == ValueChange::SetTo(value),
    {
        ValueChange::SetTo(value)
    }

    /// Clear an optional value.
    pub fn clear() -> (r: Self)
        ensures
            r == ValueChange::<T>::Clear,
    {
        ValueChange::Clear
    }

    /// Leave the value unchanged.
    pub fn unchanged() -> (r: Self)
        ensures
            r == ValueChange::<T>::Unchanged,
    {
        ValueChange::Unchanged
    }
}

} // verus!
