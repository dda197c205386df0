use component_shape::{
    is_valid_component_suffix, validate_component_suffix, validate_mcp_tool_metadata_text,
    validate_mcp_tool_name, ComponentCapabilities, ComponentFieldName, ComponentPrototyping,
    ComponentShapeFor, ComponentShapeMetadata, ComponentShapeUse, ComponentSuffix, McpInput,
    McpInputShape, McpPrimitiveKind, McpRangeBoundKind, McpToolMetadataError, RenderCapability,
    RustExpr, RustPath, RustSyntaxKind, RustType, ValueBindingCapability, ValueChange,
};

struct TextShape;

impl ComponentShapeMetadata for TextShape {
    fn capabilities() -> ComponentCapabilities {
        ComponentCapabilities::new().with_render(RenderCapability::Component)
    }

    fn prototyping() -> ComponentPrototyping {
        ComponentPrototyping::new().field_suffix("input")
    }

    fn shape_mcp_input() -> McpInput {
        McpInput::string()
    }
}

impl ComponentShapeFor<String> for TextShape {}

impl ComponentShapeFor<Vec<String>> for TextShape {
    fn mcp_input() -> McpInput {
        McpInput::string_list()
    }
}

#[test]
fn component_shape_for_inherits_shape_level_mcp_input_by_default() {
    assert_eq!(
        <TextShape as ComponentShapeFor<String>>::mcp_input().input_shape(),
        McpInputShape::Scalar(McpPrimitiveKind::String)
    );
}

#[test]
fn component_shape_for_can_override_value_specific_mcp_input() {
    assert_eq!(
        <TextShape as ComponentShapeFor<Vec<String>>>::mcp_input().input_shape(),
        McpInputShape::List(McpPrimitiveKind::String)
    );
}

#[test]
fn component_suffix_validation_accepts_identifier_suffixes() {
    assert!(is_valid_component_suffix("input"));
    assert!(is_valid_component_suffix("number_input"));
    assert!(is_valid_component_suffix("_internal"));
    assert!(is_valid_component_suffix("input2"));
}

#[test]
fn component_suffix_validation_rejects_invalid_suffixes() {
    for value in ["", "_", "2input", "input-field", "input field", "入力"] {
        assert!(
            validate_component_suffix(value).is_err(),
            "`{value}` should be rejected as a component suffix"
        );
    }
}

#[test]
fn component_suffix_new_stores_valid_suffixes() {
    assert_eq!(ComponentSuffix::new("input").as_str(), "input");
    assert_eq!(ComponentSuffix::new_opt(Some("select")).map(ComponentSuffix::as_str), Some("select"));
    assert_eq!(ComponentSuffix::new_opt(None), None);
}

#[test]
fn component_capabilities_default_to_no_runtime_features() {
    let capabilities = ComponentCapabilities::new();

    assert_eq!(capabilities.render(), RenderCapability::Disabled);
    assert_eq!(capabilities.value_binding(), ValueBindingCapability::Disabled);
    assert!(!capabilities.render_component());
    assert!(!capabilities.value_binding_enabled());
    assert_eq!(ComponentCapabilities::default(), capabilities);
}

#[test]
fn component_capabilities_builders_set_independent_features() {
    let capabilities = ComponentCapabilities::new()
        .with_render(RenderCapability::Component)
        .with_value_binding(ValueBindingCapability::Inherited);

    assert_eq!(capabilities.render(), RenderCapability::Component);
    assert_eq!(capabilities.value_binding(), ValueBindingCapability::Inherited);
    assert!(capabilities.render_component());
    assert!(capabilities.value_binding_enabled());
}

#[test]
fn component_prototyping_field_suffix_records_suffix() {
    let prototyping = ComponentPrototyping::new().field_suffix("input");

    assert_eq!(prototyping.field_suffix.map(ComponentSuffix::as_str), Some("input"));
}

#[test]
fn component_field_name_exposes_borrowed_identifier_text() {
    let field_name = ComponentFieldName::new("title");
    let field_name_ref: &str = field_name.as_ref();

    assert_eq!(field_name.as_str(), "title");
    assert_eq!(field_name_ref, "title");
    assert_eq!(field_name.to_string(), "title");
}

#[test]
fn component_shape_use_defaults_to_no_capabilities_or_prototyping() {
    let shape_use = ComponentShapeUse::new(
        ComponentFieldName::new("title"),
        RustPath::from_macro_tokens_unchecked("crate::fields::TitleInput"),
    );

    assert_eq!(shape_use.capabilities(), ComponentCapabilities::new());
    assert_eq!(shape_use.prototyping(), ComponentPrototyping::new());
    assert_eq!(shape_use.mcp_input(), McpInput::unsupported());
}

#[test]
fn component_shape_use_preserves_field_name_and_shape_path() {
    let shape_use = ComponentShapeUse::new(
        ComponentFieldName::new("title"),
        RustPath::from_macro_tokens_unchecked("crate::fields::TitleInput"),
    );

    assert_eq!(shape_use.field_name().as_str(), "title");
    assert_eq!(shape_use.shape_path().as_str(), "crate::fields::TitleInput");
}

#[test]
fn component_shape_use_records_optional_field_type() {
    let shape_use = ComponentShapeUse::new(
        ComponentFieldName::new("title"),
        RustPath::from_macro_tokens_unchecked("crate::fields::TitleInput"),
    )
    .with_field_type(RustType::from_macro_tokens_unchecked("String"));

    assert_eq!(shape_use.field_type().map(RustType::as_str), Some("String"));
}

#[test]
fn component_shape_use_preserves_explicit_capabilities_and_prototyping() {
    let capabilities = ComponentCapabilities::new()
        .with_render(RenderCapability::Component)
        .with_value_binding(ValueBindingCapability::Inherited);
    let prototyping = ComponentPrototyping::new().field_suffix("title_input");

    let shape_use = ComponentShapeUse::new(
        ComponentFieldName::new("title"),
        RustPath::from_macro_tokens_unchecked("crate::fields::TitleInput"),
    )
    .with_capabilities(capabilities)
    .with_prototyping(prototyping);

    assert_eq!(shape_use.capabilities(), capabilities);
    assert_eq!(
        shape_use.prototyping().field_suffix.map(ComponentSuffix::as_str),
        Some("title_input")
    );
}

#[test]
fn component_shape_use_preserves_mcp_input_metadata() {
    let input = McpInput::string();

    let shape_use = ComponentShapeUse::new(
        ComponentFieldName::new("title"),
        RustPath::from_macro_tokens_unchecked("crate::fields::TitleInput"),
    )
    .with_mcp_input(input);

    assert_eq!(shape_use.mcp_input(), input);
    assert_eq!(
        shape_use.mcp_input().input_shape(),
        McpInputShape::Scalar(McpPrimitiveKind::String)
    );
}

#[test]
fn component_shape_use_can_copy_shape_metadata_from_type() {
    let shape_use = ComponentShapeUse::new(
        ComponentFieldName::new("title"),
        RustPath::from_macro_tokens_unchecked("crate::fields::TitleInput"),
    )
    .with_shape_metadata::<TextShape>();

    assert_eq!(shape_use.capabilities().render(), RenderCapability::Component);
    assert_eq!(
        shape_use.prototyping().field_suffix.map(ComponentSuffix::as_str),
        Some("input")
    );
    assert_eq!(
        shape_use.mcp_input().input_shape(),
        McpInputShape::Scalar(McpPrimitiveKind::String)
    );
}

#[test]
fn component_shape_use_can_copy_value_specific_mcp_input_from_type() {
    let shape_use = ComponentShapeUse::new(
        ComponentFieldName::new("tags"),
        RustPath::from_macro_tokens_unchecked("crate::fields::TagsInput"),
    )
    .with_shape_metadata::<TextShape>()
    .with_value_mcp_input::<TextShape, Vec<String>>();

    assert_eq!(
        shape_use.mcp_input().input_shape(),
        McpInputShape::List(McpPrimitiveKind::String)
    );
}

#[test]
fn mcp_input_defaults_to_unsupported() {
    let input = McpInput::default();

    assert!(!input.supported());
    assert_eq!(input.input_shape(), McpInputShape::Unsupported);
}

#[test]
fn mcp_input_records_shape() {
    let input = McpInput::range(McpRangeBoundKind::Date);

    assert!(input.supported());
    assert_eq!(input.input_shape(), McpInputShape::Range(McpRangeBoundKind::Date));
}

#[test]
fn mcp_input_convenience_constructors_match_common_shapes() {
    assert_eq!(McpInput::string().input_shape(), McpInputShape::Scalar(McpPrimitiveKind::String));
    assert_eq!(McpInput::string_list().input_shape(), McpInputShape::List(McpPrimitiveKind::String));
    assert_eq!(McpInput::string_set().input_shape(), McpInputShape::SetOf(McpPrimitiveKind::String));
    assert_eq!(McpInput::date_range().input_shape(), McpInputShape::Range(McpRangeBoundKind::Date));
    assert_eq!(
        McpInput::decimal_range().input_shape(),
        McpInputShape::Range(McpRangeBoundKind::Decimal)
    );
    assert_eq!(
        McpInput::integer_range().input_shape(),
        McpInputShape::Range(McpRangeBoundKind::Integer)
    );
    assert_eq!(
        McpInput::date_time_range().input_shape(),
        McpInputShape::Range(McpRangeBoundKind::DateTime)
    );
    assert_eq!(McpInput::decimal_list().input_shape(), McpInputShape::List(McpPrimitiveKind::Decimal));
    assert_eq!(McpInput::decimal_set().input_shape(), McpInputShape::SetOf(McpPrimitiveKind::Decimal));
}

#[test]
fn all_mcp_input_convenience_constructors_match_their_shapes() {
    let scalar_cases: [(fn() -> McpInput, McpPrimitiveKind); 8] = [
        (McpInput::any, McpPrimitiveKind::Any),
        (McpInput::boolean, McpPrimitiveKind::Boolean),
        (McpInput::integer, McpPrimitiveKind::Integer),
        (McpInput::number, McpPrimitiveKind::Number),
        (McpInput::decimal, McpPrimitiveKind::Decimal),
        (McpInput::string, McpPrimitiveKind::String),
        (McpInput::date, McpPrimitiveKind::Date),
        (McpInput::date_time, McpPrimitiveKind::DateTime),
    ];
    for (constructor, kind) in scalar_cases {
        assert_eq!(constructor().input_shape(), McpInputShape::Scalar(kind));
    }

    let collection_cases: [(fn() -> McpInput, McpInputShape); 14] = [
        (McpInput::string_list, McpInputShape::List(McpPrimitiveKind::String)),
        (McpInput::boolean_list, McpInputShape::List(McpPrimitiveKind::Boolean)),
        (McpInput::integer_list, McpInputShape::List(McpPrimitiveKind::Integer)),
        (McpInput::number_list, McpInputShape::List(McpPrimitiveKind::Number)),
        (McpInput::decimal_list, McpInputShape::List(McpPrimitiveKind::Decimal)),
        (McpInput::date_list, McpInputShape::List(McpPrimitiveKind::Date)),
        (McpInput::date_time_list, McpInputShape::List(McpPrimitiveKind::DateTime)),
        (McpInput::string_set, McpInputShape::SetOf(McpPrimitiveKind::String)),
        (McpInput::boolean_set, McpInputShape::SetOf(McpPrimitiveKind::Boolean)),
        (McpInput::integer_set, McpInputShape::SetOf(McpPrimitiveKind::Integer)),
        (McpInput::number_set, McpInputShape::SetOf(McpPrimitiveKind::Number)),
        (McpInput::decimal_set, McpInputShape::SetOf(McpPrimitiveKind::Decimal)),
        (McpInput::date_set, McpInputShape::SetOf(McpPrimitiveKind::Date)),
        (McpInput::date_time_set, McpInputShape::SetOf(McpPrimitiveKind::DateTime)),
    ];
    for (constructor, shape) in collection_cases {
        assert_eq!(constructor().input_shape(), shape);
    }

    let range_cases: [(fn() -> McpInput, McpRangeBoundKind); 5] = [
        (McpInput::integer_range, McpRangeBoundKind::Integer),
        (McpInput::number_range, McpRangeBoundKind::Number),
        (McpInput::decimal_range, McpRangeBoundKind::Decimal),
        (McpInput::date_range, McpRangeBoundKind::Date),
        (McpInput::date_time_range, McpRangeBoundKind::DateTime),
    ];
    for (constructor, kind) in range_cases {
        assert_eq!(constructor().input_shape(), McpInputShape::Range(kind));
        assert_eq!(McpPrimitiveKind::from(kind), kind.primitive_kind());
    }

    assert_eq!(McpInput::object().input_shape(), McpInputShape::Object);
}

#[test]
fn mcp_kind_names_are_stable_metadata() {
    assert_eq!(McpPrimitiveKind::Any.as_str(), "any");
    assert_eq!(McpPrimitiveKind::Boolean.as_str(), "boolean");
    assert_eq!(McpPrimitiveKind::Integer.as_str(), "integer");
    assert_eq!(McpPrimitiveKind::Number.as_str(), "number");
    assert_eq!(McpPrimitiveKind::Decimal.as_str(), "decimal");
    assert_eq!(McpPrimitiveKind::String.as_str(), "string");
    assert_eq!(McpPrimitiveKind::Date.as_str(), "date");
    assert_eq!(McpPrimitiveKind::DateTime.as_str(), "date_time");

    assert_eq!(McpRangeBoundKind::Integer.as_str(), "integer");
    assert_eq!(McpRangeBoundKind::Number.as_str(), "number");
    assert_eq!(McpRangeBoundKind::Decimal.as_str(), "decimal");
    assert_eq!(McpRangeBoundKind::Date.as_str(), "date");
    assert_eq!(McpRangeBoundKind::DateTime.as_str(), "date_time");
}

#[test]
fn mcp_tool_name_validation_matches_generated_tool_contract() {
    assert!(validate_mcp_tool_name("query.users-1").is_ok());
    assert_eq!(validate_mcp_tool_name(""), Err(McpToolMetadataError::EmptyName));
    assert_eq!(validate_mcp_tool_name("_query"), Err(McpToolMetadataError::InvalidNameStart));
    assert_eq!(
        validate_mcp_tool_name("query users"),
        Err(McpToolMetadataError::InvalidNameCharacter)
    );
}

#[test]
fn mcp_tool_metadata_text_validation_rejects_blank_text() {
    let error = validate_mcp_tool_metadata_text("title", "  ").expect_err("blank title should fail");

    assert_eq!(error.message(), "tool title cannot be empty");
    assert!(validate_mcp_tool_metadata_text("title", "Readable title").is_ok());
}

#[test]
fn rust_type_new_opt_validates_some_values() {
    assert_eq!(
        RustType::new_opt(Some("Option<String>"))
            .expect("type should parse")
            .map(RustType::as_str),
        Some("Option<String>")
    );
    assert_eq!(RustType::new_opt(None).expect("none should pass"), None);
}

#[test]
fn unchecked_macro_constructors_do_not_validate() {
    assert_eq!(RustType::from_macro_tokens_unchecked("Vec<").as_str(), "Vec<");
    assert_eq!(
        RustType::from_macro_tokens_opt_unchecked(Some("Vec<")).map(RustType::as_str),
        Some("Vec<")
    );
}

#[test]
fn value_change_helpers_construct_expected_variants() {
    assert_eq!(ValueChange::set("x"), ValueChange::SetTo("x"));
    assert_eq!(ValueChange::<String>::clear(), ValueChange::Clear);
    assert_eq!(ValueChange::<String>::unchanged(), ValueChange::Unchanged);
}

#[test]
fn rust_type_validates_and_parses_type_syntax() {
    let ty = RustType::new("std::collections::HashMap<String, usize>").expect("type should parse");

    assert_eq!(ty.as_str(), "std::collections::HashMap<String, usize>");
    assert!(matches!(ty.parse(), Ok(syn::Type::Path(_))));
}

#[test]
fn rust_path_validates_and_parses_path_syntax() {
    let path = RustPath::new("crate::widgets::TextInput<String>").expect("path should parse");

    assert_eq!(path.as_str(), "crate::widgets::TextInput<String>");
    assert_eq!(
        path.parse()
            .expect("path should parse")
            .segments
            .last()
            .expect("path should have final segment")
            .ident,
        "TextInput"
    );
}

#[test]
fn rust_expr_validates_and_parses_expression_syntax() {
    let expr = RustExpr::new("Some(Default::default())").expect("expr should parse");

    assert_eq!(expr.as_str(), "Some(Default::default())");
    assert!(matches!(expr.parse(), Ok(syn::Expr::Call(_))));
}

#[test]
fn rust_syntax_errors_record_kind_value_and_source_error() {
    let error = RustType::new("Vec<").expect_err("invalid type should fail");

    assert_eq!(error.kind(), RustSyntaxKind::Type);
    assert_eq!(error.value(), "Vec<");
    assert!(!error.source_error().is_empty());
    assert!(error
        .message()
        .starts_with("invalid Rust type metadata `Vec<`: "));
}
