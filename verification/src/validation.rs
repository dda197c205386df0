//! Static validator metadata attached to MCP-visible fields, and structured
//! validation issues.

use crate::json::{copy_str, lemma_array_view, lemma_map_insert_get, lemma_object_view, map_get, map_insert, Json, JsonMap, JsonNumber, JsonValue, NumberModel};
use crate::tool_error::{insert_all, join_texts, McpToolError, ToolErrorModel};
use crate::text::concat3;
use vstd::prelude::*;
use vstd::slice::slice_to_vec;
use vstd::string::*;

verus! {

/// Where a generated MCP validation issue applies.
#[derive(Clone, Copy, Debug, PartialEq, Eq, Structural)]
pub enum McpValidationScope {
    /// The whole form failed validation without a precise field.
    Form,
    /// A field-level validator failed.
    Field,
    /// A validator for one item inside a collection field failed.
    Element,
    /// A table filter argument failed validation.
    Filter,
}

pub open spec fn scope_name(s: McpValidationScope) -> Seq<char> {
    match s {
        McpValidationScope::Form => "form"@,
        McpValidationScope::Field => "field"@,
        McpValidationScope::Element => "element"@,
        McpValidationScope::Filter => "filter"@,
    }
}

impl McpValidationScope {
    pub fn as_str(self) -> (r: &'static str)
        ensures
            r@ == scope_name(self),
    {
        match self {
            McpValidationScope::Form => "form",
            McpValidationScope::Field => "field",
            McpValidationScope::Element => "element",
            McpValidationScope::Filter => "filter",
        }
    }
}

/// Target selector recorded for an MCP validation rule.
#[derive(Clone, Copy, Debug, PartialEq, Eq, Structural)]
pub enum McpValidationTarget {
    /// The default target for the field type.
    Default,
    /// The validator targets the full field value, such as an `Option<T>`.
    Full,
    /// The validator targets the unwrapped field value.
    Unwrapped,
}

pub open spec fn target_name(t: McpValidationTarget) -> Seq<char> {
    match t {
        McpValidationTarget::Default => "default"@,
        McpValidationTarget::Full => "full"@,
        McpValidationTarget::Unwrapped => "unwrapped"@,
    }
}

impl McpValidationTarget {
    pub fn as_str(self) -> (r: &'static str)
        ensures
            r@ == target_name(self),
    {
        match self {
            McpValidationTarget::Default => "default",
            McpValidationTarget::Full => "full",
            McpValidationTarget::Unwrapped => "unwrapped",
        }
    }
}

/// Type argument syntax used by a generated validator descriptor.
#[derive(Clone, Copy, Debug, PartialEq, Eq, Structural)]
pub enum McpValidationTypeArgMode {
    /// The validator path did not supply a type argument.
    Omitted,
    /// The validator used `::<_>`.
    Infer,
    /// The validator supplied an explicit type argument.
    Explicit,
}

pub open spec fn type_arg_mode_name(m: McpValidationTypeArgMode) -> Seq<char> {
    match m {
        McpValidationTypeArgMode::Omitted => "none"@,
        McpValidationTypeArgMode::Infer => "infer"@,
        McpValidationTypeArgMode::Explicit => "explicit"@,
    }
}

impl McpValidationTypeArgMode {
    pub fn as_str(self) -> (r: &'static str)
        ensures
            r@ == type_arg_mode_name(self),
    {
        match self {
            McpValidationTypeArgMode::Omitted => "none",
            McpValidationTypeArgMode::Infer => "infer",
            McpValidationTypeArgMode::Explicit => "explicit",
        }
    }
}

/// One builder argument captured from a generated validator chain.
#[derive(Clone, Copy, Debug, PartialEq, Eq)]
pub struct McpValidationParam {
    name: &'static str,
    literal: Option<&'static str>,
    expr: Option<&'static str>,
}

/// Mathematical model of a validation parameter.
pub struct ParamModel {
    pub name: Seq<char>,
    pub literal: Option<Seq<char>>,
    pub expr: Option<Seq<char>>,
}

pub open spec fn opt_str_view(o: Option<&str>) -> Option<Seq<char>> {
    match o {
        Some(s) => Some(s@),
        None => None,
    }
}

impl View for McpValidationParam {
    type V = ParamModel;

    closed spec fn view(&self) -> ParamModel {
        ParamModel {
            name: self.name@,
            literal: opt_str_view(self.literal),
            expr: opt_str_view(self.expr),
        }
    }
}

/// `{ "name": ..., "value": literal?, "expr": expr? }`.
pub open spec fn param_json(p: ParamModel) -> Json {
    let base = map_insert(Seq::empty(), "name"@, Json::String(p.name));
    let with_value = match p.literal {
        Some(l) => map_insert(base, "value"@, Json::String(l)),
        None => base,
    };
    Json::Object(
        match p.expr {
            Some(e) => map_insert(with_value, "expr"@, Json::String(e)),
            None => with_value,
        },
    )
}

impl McpValidationParam {
    /// Record a literal argument value that can be reflected into schemas.
    pub fn literal(name: &'static str, literal: &'static str) -> (r: Self)
        ensures
            r@.name == name@,
            r@.literal == Some(literal@),
            r@.expr is None,
    {
        McpValidationParam { name, literal: Some(literal), expr: None }
    }

    /// Record a non-literal expression for tool clients to display or inspect.
    pub fn expr(name: &'static str, expr: &'static str) -> (r: Self)
        ensures
            r@.name == name@,
            r@.literal is None,
            r@.expr == Some(expr@),
    {
        McpValidationParam { name, literal: None, expr: Some(expr) }
    }

    /// Builder method or argument name.
    pub fn name(self) -> (r: &'static str)
        ensures
            r@ == self@.name,
    {
        self.name
    }

    /// Literal argument value, when the derive could statically identify one.
    pub fn literal_value(self) -> (r: Option<&'static str>)
        ensures
            opt_str_view(r) == self@.literal,
    {
        self.literal
    }

    /// Non-literal argument expression, when no literal value is available.
    pub fn expr_value(self) -> (r: Option<&'static str>)
        ensures
            opt_str_view(r) == self@.expr,
    {
        self.expr
    }

    pub fn to_value(self) -> (r: JsonValue)
        ensures
            r@ == param_json(self@),
    {
        let mut object = JsonMap::new();
        object.insert(String::from_str("name"), JsonValue::String(copy_str(self.name)));
        if let Some(literal) = self.literal {
            object.insert(String::from_str("value"), JsonValue::String(copy_str(literal)));
        }
        if let Some(expr) = self.expr {
            object.insert(String::from_str("expr"), JsonValue::String(copy_str(expr)));
        }
        proof {
            lemma_object_view(object);
        }
        JsonValue::Object(object)
    }
}

/// Static validator metadata attached to an MCP-visible field or filter.
#[derive(Clone, Copy, Debug, PartialEq, Eq)]
pub struct McpValidationRule {
    scope: McpValidationScope,
    validator: &'static str,
    path: &'static str,
    label: Option<&'static str>,
    target: Option<McpValidationTarget>,
    type_arg_mode: McpValidationTypeArgMode,
    params: &'static [McpValidationParam],
}

/// Mathematical model of a validation rule.
pub struct RuleModel {
    pub scope: McpValidationScope,
    pub validator: Seq<char>,
    pub path: Seq<char>,
    pub label: Option<Seq<char>>,
    pub target: Option<McpValidationTarget>,
    pub type_arg_mode: McpValidationTypeArgMode,
    pub params: Seq<ParamModel>,
}

pub open spec fn param_views(p: Seq<McpValidationParam>) -> Seq<ParamModel> {
    Seq::new(p.len(), |i: int| p[i]@)
}

impl View for McpValidationRule {
    type V = RuleModel;

    closed spec fn view(&self) -> RuleModel {
        RuleModel {
            scope: self.scope,
            validator: self.validator@,
            path: self.path@,
            label: opt_str_view(self.label),
            target: self.target,
            type_arg_mode: self.type_arg_mode,
            params: param_views(self.params@),
        }
    }
}

/// The JSON list of parameters.
pub open spec fn params_json(p: Seq<ParamModel>) -> Json {
    Json::Array(Seq::new(p.len(), |i: int| param_json(p[i])))
}

/// The JSON description of a rule: scope, validator, path, label and target
/// when present, type argument mode, and parameters when there are any.
pub open spec fn rule_json(r: RuleModel) -> Json {
    let e1 = map_insert(Seq::empty(), "scope"@, Json::String(scope_name(r.scope)));
    let e2 = map_insert(e1, "validator"@, Json::String(r.validator));
    let e3 = map_insert(e2, "path"@, Json::String(r.path));
    let e4 = match r.label {
        Some(l) => map_insert(e3, "label"@, Json::String(l)),
        None => e3,
    };
    let e5 = match r.target {
        Some(t) => map_insert(e4, "target"@, Json::String(target_name(t))),
        None => e4,
    };
    let e6 = map_insert(e5, "type_arg_mode"@, Json::String(type_arg_mode_name(r.type_arg_mode)));
    Json::Object(
        if r.params.len() == 0 {
            e6
        } else {
            map_insert(e6, "params"@, params_json(r.params))
        },
    )
}

/// The JSON array of the given parameters.
pub fn params_to_value(params: &[McpValidationParam]) -> (r: JsonValue)
    ensures
        r@ == params_json(param_views(params@)),
{
    let n = params.len();
    let mut values: Vec<JsonValue> = Vec::new();
    let mut i: usize = 0;
    while i < n
        invariant
            n == params@.len(),
            i <= n,
            values@.len() == i,
            forall|j: int| 0 <= j < i ==> (#[trigger] values@[j])@ == param_json(params@[j]@),
        decreases n - i,
    {
        values.push(params[i].to_value());
        i = i + 1;
    }
    proof {
        lemma_array_view(values);
        assert(Seq::new(values@.len(), |j: int| values@[j]@) =~= Seq::new(
            param_views(params@).len(),
            |j: int| param_json(param_views(params@)[j]),
        ));
    }
    JsonValue::Array(values)
}

impl McpValidationRule {
    /// Create a validation rule descriptor for generated MCP metadata.
    pub fn new(
        scope: McpValidationScope,
        validator: &'static str,
        path: &'static str,
        label: Option<&'static str>,
        type_arg_mode: McpValidationTypeArgMode,
        params: &'static [McpValidationParam],
    ) -> (r: Self)
        ensures
            r@ == (RuleModel {
                scope,
                validator: validator@,
                path: path@,
                label: opt_str_view(label),
                target: None,
                type_arg_mode,
                params: param_views(params@),
            }),
    {
        McpValidationRule { scope, validator, path, label, target: None, type_arg_mode, params }
    }

    /// Attach a target selector to a rule descriptor.
    pub fn with_target(self, target: McpValidationTarget) -> (r: Self)
        ensures
            r@ == (RuleModel { target: Some(target), ..self@ }),
    {
        McpValidationRule { target: Some(target), ..self }
    }

    /// Scope where this validator runs.
    pub fn scope(self) -> (r: McpValidationScope)
        ensures
            r == self@.scope,
    {
        self.scope
    }

    /// Terminal validator type name.
    pub fn validator(self) -> (r: &'static str)
        ensures
            r@ == self@.validator,
    {
        self.validator
    }

    /// Validator path as written in the source attribute.
    pub fn path(self) -> (r: &'static str)
        ensures
            r@ == self@.path,
    {
        self.path
    }

    /// Optional source label assigned to this validator.
    pub fn label(self) -> (r: Option<&'static str>)
        ensures
            opt_str_view(r) == self@.label,
    {
        self.label
    }

    /// Optional target selector used by this validator.
    pub fn target(self) -> (r: Option<McpValidationTarget>)
        ensures
            r == self@.target,
    {
        self.target
    }

    /// Type argument syntax used by this validator.
    pub fn type_arg_mode(self) -> (r: McpValidationTypeArgMode)
        ensures
            r == self@.type_arg_mode,
    {
        self.type_arg_mode
    }

    /// Captured builder parameters for this validator.
    pub fn params(self) -> (r: &'static [McpValidationParam])
        ensures
            param_views(r@) == self@.params,
    {
        self.params
    }

    pub fn to_value(self) -> (r: JsonValue)
        ensures
            r@ == rule_json(self@),
    {
        let mut object = JsonMap::new();
        object.insert(
            String::from_str("scope"),
            JsonValue::String(String::from_str(self.scope.as_str())),
        );
        object.insert(String::from_str("validator"), JsonValue::String(copy_str(self.validator)));
        object.insert(String::from_str("path"), JsonValue::String(copy_str(self.path)));
        if let Some(label) = self.label {
            object.insert(String::from_str("label"), JsonValue::String(copy_str(label)));
        }
        if let Some(target) = self.target {
            object.insert(
                String::from_str("target"),
                JsonValue::String(String::from_str(target.as_str())),
            );
        }
        object.insert(
            String::from_str("type_arg_mode"),
            JsonValue::String(String::from_str(self.type_arg_mode.as_str())),
        );
        if self.params.len() != 0 {
            object.insert(String::from_str("params"), params_to_value(self.params));
        }
        proof {
            lemma_object_view(object);
        }
        JsonValue::Object(object)
    }
}

/// Structured validation failure returned in MCP error details and snapshots.
#[derive(Debug)]
pub struct McpValidationIssue {
    field: Option<String>,
    filter: Option<String>,
    scope: McpValidationScope,
    validator: Option<String>,
    path: Option<String>,
    label: Option<String>,
    target: Option<McpValidationTarget>,
    element_index: Option<usize>,
    message: String,
    params: Vec<McpValidationParam>,
}

/// Mathematical model of a validation issue.
pub struct IssueModel {
    pub field: Option<Seq<char>>,
    pub filter: Option<Seq<char>>,
    pub scope: McpValidationScope,
    pub validator: Option<Seq<char>>,
    pub path: Option<Seq<char>>,
    pub label: Option<Seq<char>>,
    pub target: Option<McpValidationTarget>,
    pub element_index: Option<usize>,
    pub message: Seq<char>,
    pub params: Seq<ParamModel>,
}

pub open spec fn opt_string_view(o: Option<String>) -> Option<Seq<char>> {
    match o {
        Some(s) => Some(s@),
        None => None,
    }
}

impl View for McpValidationIssue {
    type V = IssueModel;

    closed spec fn view(&self) -> IssueModel {
        IssueModel {
            field: opt_string_view(self.field),
            filter: opt_string_view(self.filter),
            scope: self.scope,
            validator: opt_string_view(self.validator),
            path: opt_string_view(self.path),
            label: opt_string_view(self.label),
            target: self.target,
            element_index: self.element_index,
            message: self.message@,
            params: param_views(self.params@),
        }
    }
}

/// An issue with only a scope and a message.
pub open spec fn custom_issue(scope: McpValidationScope, message: Seq<char>) -> IssueModel {
    IssueModel {
        field: None,
        filter: None,
        scope,
        validator: None,
        path: None,
        label: None,
        target: None,
        element_index: None,
        message,
        params: Seq::empty(),
    }
}

/// An issue carrying a rule's validator, path, label, target and parameters.
pub open spec fn with_rule_model(i: IssueModel, r: RuleModel) -> IssueModel {
    IssueModel {
        validator: Some(r.validator),
        path: Some(r.path),
        label: r.label,
        target: r.target,
        params: r.params,
        ..i
    }
}

/// The JSON description of an issue: scope and message, then each recorded
/// detail.
pub open spec fn issue_json(i: IssueModel) -> Json {
    let e1 = map_insert(Seq::empty(), "scope"@, Json::String(scope_name(i.scope)));
    let e2 = map_insert(e1, "message"@, Json::String(i.message));
    let e3 = match i.field {
        Some(f) => map_insert(e2, "field"@, Json::String(f)),
        None => e2,
    };
    let e4 = match i.filter {
        Some(f) => map_insert(e3, "filter"@, Json::String(f)),
        None => e3,
    };
    let e5 = match i.validator {
        Some(v) => map_insert(e4, "validator"@, Json::String(v)),
        None => e4,
    };
    let e6 = match i.path {
        Some(p) => map_insert(e5, "path"@, Json::String(p)),
        None => e5,
    };
    let e7 = match i.label {
        Some(l) => map_insert(e6, "label"@, Json::String(l)),
        None => e6,
    };
    let e8 = match i.target {
        Some(t) => map_insert(e7, "target"@, Json::String(target_name(t))),
        None => e7,
    };
    let e9 = match i.element_index {
        Some(n) => map_insert(e8, "element_index"@, Json::Number(NumberModel::PosInt(n as u64))),
        None => e8,
    };
    Json::Object(
        if i.params.len() == 0 {
            e9
        } else {
            map_insert(e9, "params"@, params_json(i.params))
        },
    )
}

fn copy_opt(o: &Option<String>) -> (r: Option<String>)
    ensures
        opt_string_view(r) == opt_string_view(*o),
{
    match o {
        Some(s) => Some(copy_str(s.as_str())),
        None => None,
    }
}

impl McpValidationIssue {
    /// Build a form-scoped issue when no field-specific metadata is available.
    pub fn form(message: &str) -> (r: Self)
        ensures
            r@ == custom_issue(McpValidationScope::Form, message@),
    {
        Self::custom(McpValidationScope::Form, message)
    }

    /// Build a generic issue for integrations that already have structured metadata.
    pub fn custom(scope: McpValidationScope, message: &str) -> (r: Self)
        ensures
            r@ == custom_issue(scope, message@),
    {
        let params: Vec<McpValidationParam> = Vec::new();
        let r = McpValidationIssue {
            field: None,
            filter: None,
            scope,
            validator: None,
            path: None,
            label: None,
            target: None,
            element_index: None,
            message: copy_str(message),
            params,
        };
        assert(param_views(params@) =~= Seq::<ParamModel>::empty());
        r
    }

    /// Build a required-field issue.
    pub fn required(field: &str) -> (r: Self)
        ensures
            r@ == (IssueModel {
                field: Some(field@),
                validator: Some("required"@),
                ..custom_issue(
                    McpValidationScope::Field,
                    "missing required field `"@ + field@ + "`"@,
                )
            }),
    {
        let message = concat3("missing required field `", field, "`");
        Self::custom(McpValidationScope::Field, message.as_str()).with_field(field).with_validator(
            "required",
        )
    }

    /// Build an issue from a static validation rule descriptor.
    pub fn for_rule(field: &str, rule: McpValidationRule, message: &str) -> (r: Self)
        ensures
            r@ == with_rule_model(
                IssueModel { field: Some(field@), ..custom_issue(rule@.scope, message@) },
                rule@,
            ),
    {
        Self::custom(rule.scope(), message).with_field(field).with_rule(rule)
    }

    /// Build a table-filter issue from a static validation rule descriptor.
    pub fn for_filter_rule(filter: &str, rule: McpValidationRule, message: &str) -> (r: Self)
        ensures
            r@ == with_rule_model(
                IssueModel { filter: Some(filter@), ..custom_issue(rule@.scope, message@) },
                rule@,
            ),
    {
        Self::custom(rule.scope(), message).with_filter(filter).with_rule(rule)
    }

    fn with_rule(self, rule: McpValidationRule) -> (r: Self)
        ensures
            r@ == with_rule_model(self@, rule@),
    {
        let params = slice_to_vec(rule.params());
        let label = match rule.label() {
            Some(l) => Some(copy_str(l)),
            None => None,
        };
        McpValidationIssue {
            validator: Some(copy_str(rule.validator())),
            path: Some(copy_str(rule.path())),
            label,
            target: rule.target(),
            params,
            ..self
        }
    }

    /// Attach the failing collection element index to an element issue.
    pub fn with_element_index(self, element_index: usize) -> (r: Self)
        ensures
            r@ == (IssueModel { element_index: Some(element_index), ..self@ }),
    {
        McpValidationIssue { element_index: Some(element_index), ..self }
    }

    /// Attach a field name to an issue.
    pub fn with_field(self, field: &str) -> (r: Self)
        ensures
            r@ == (IssueModel { field: Some(field@), ..self@ }),
    {
        McpValidationIssue { field: Some(copy_str(field)), ..self }
    }

    /// Attach a table filter name to an issue.
    pub fn with_filter(self, filter: &str) -> (r: Self)
        ensures
            r@ == (IssueModel { filter: Some(filter@), ..self@ }),
    {
        McpValidationIssue { filter: Some(copy_str(filter)), ..self }
    }

    /// Attach a validator name to a generic issue.
    pub fn with_validator(self, validator: &str) -> (r: Self)
        ensures
            r@ == (IssueModel { validator: Some(validator@), ..self@ }),
    {
        McpValidationIssue { validator: Some(copy_str(validator)), ..self }
    }

    /// Attach a source label to a generic issue.
    pub fn with_label(self, label: &str) -> (r: Self)
        ensures
            r@ == (IssueModel { label: Some(label@), ..self@ }),
    {
        McpValidationIssue { label: Some(copy_str(label)), ..self }
    }

    /// Field name for field or element issues.
    pub fn field(&self) -> (r: Option<&str>)
        ensures
            opt_str_view(r) == self@.field,
    {
        match &self.field {
            Some(f) => Some(f.as_str()),
            None => None,
        }
    }

    /// Table filter name for filter issues.
    pub fn filter(&self) -> (r: Option<&str>)
        ensures
            opt_str_view(r) == self@.filter,
    {
        match &self.filter {
            Some(f) => Some(f.as_str()),
            None => None,
        }
    }

    /// Human-readable validation message.
    pub fn message(&self) -> (r: &str)
        ensures
            r@ == self@.message,
    {
        self.message.as_str()
    }

    /// Convert the issue to JSON for MCP structured content.
    pub fn to_value(&self) -> (r: JsonValue)
        ensures
            r@ == issue_json(self@),
    {
        let mut object = JsonMap::new();
        object.insert(
            String::from_str("scope"),
            JsonValue::String(String::from_str(self.scope.as_str())),
        );
        object.insert(String::from_str("message"), JsonValue::String(copy_str(self.message.as_str())));
        if let Some(field) = &self.field {
            object.insert(String::from_str("field"), JsonValue::String(copy_str(field.as_str())));
        }
        if let Some(filter) = &self.filter {
            object.insert(String::from_str("filter"), JsonValue::String(copy_str(filter.as_str())));
        }
        if let Some(validator) = &self.validator {
            object.insert(
                String::from_str("validator"),
                JsonValue::String(copy_str(validator.as_str())),
            );
        }
        if let Some(path) = &self.path {
            object.insert(String::from_str("path"), JsonValue::String(copy_str(path.as_str())));
        }
        if let Some(label) = &self.label {
            object.insert(String::from_str("label"), JsonValue::String(copy_str(label.as_str())));
        }
        if let Some(target) = self.target {
            object.insert(
                String::from_str("target"),
                JsonValue::String(String::from_str(target.as_str())),
            );
        }
        if let Some(element_index) = self.element_index {
            object.insert(
                String::from_str("element_index"),
                JsonValue::Number(JsonNumber::PosInt(element_index as u64)),
            );
        }
        if self.params.len() != 0 {
            object.insert(String::from_str("params"), params_to_value(self.params.as_slice()));
        }
        proof {
            lemma_object_view(object);
        }
        JsonValue::Object(object)
    }
}

/// The messages of a list of issues.
pub open spec fn issue_messages(issues: Seq<McpValidationIssue>) -> Seq<Seq<char>> {
    Seq::new(issues.len(), |i: int| issues[i]@.message)
}

/// Convert validation issues into a structured MCP validation error: the
/// messages joined with `"; "`, and each issue's JSON description as a detail.
pub fn validation_issues_error(issues: Vec<McpValidationIssue>) -> (r: McpToolError)
    ensures
        r@ == (ToolErrorModel::Validation {
            message: join_texts(issue_messages(issues@), "; "@),
            details: Seq::new(issues@.len(), |i: int| issue_json(issues@[i]@)),
        }),
{
    let n = issues.len();
    let mut messages: Vec<String> = Vec::new();
    let mut details: Vec<JsonValue> = Vec::new();
    let mut i: usize = 0;
    while i < n
        invariant
            n == issues@.len(),
            i <= n,
            messages@.len() == i,
            details@.len() == i,
            forall|j: int| 0 <= j < i ==> (#[trigger] messages@[j])@ == issues@[j]@.message,
            forall|j: int| 0 <= j < i ==> (#[trigger] details@[j])@ == issue_json(issues@[j]@),
        decreases n - i,
    {
        messages.push(copy_str(issues[i].message()));
        details.push(issues[i].to_value());
        i = i + 1;
    }
    let message = crate::tool_error::join_strings(&messages, "; ");
    assert(crate::tool_error::string_views(messages@) =~= issue_messages(issues@));
    let r = McpToolError::validation_structured_details(message.as_str(), details);
    assert(crate::tool_error::json_seq(details@) =~= Seq::new(
        issues@.len(),
        |j: int| issue_json(issues@[j]@),
    ));
    r
}


/// What the JSON description of a rule holds under a key, read back key by
/// key: later keys of the description are stored after earlier ones.
spec fn rule_entry(r: RuleModel, k: Seq<char>) -> Option<Json> {
    if k == "params"@ {
        if r.params.len() == 0 {
            None
        } else {
            Some(params_json(r.params))
        }
    } else if k == "type_arg_mode"@ {
        Some(Json::String(type_arg_mode_name(r.type_arg_mode)))
    } else if k == "target"@ {
        match r.target {
            Some(t) => Some(Json::String(target_name(t))),
            None => None,
        }
    } else if k == "label"@ {
        match r.label {
            Some(l) => Some(Json::String(l)),
            None => None,
        }
    } else if k == "path"@ {
        Some(Json::String(r.path))
    } else if k == "validator"@ {
        Some(Json::String(r.validator))
    } else if k == "scope"@ {
        Some(Json::String(scope_name(r.scope)))
    } else {
        None
    }
}

proof fn lemma_rule_json_get(r: RuleModel, k: Seq<char>)
    ensures
        rule_json(r) matches Json::Object(e) && map_get(e, k) == rule_entry(r, k),
{
    reveal_strlit("scope");
    reveal_strlit("validator");
    reveal_strlit("path");
    reveal_strlit("label");
    reveal_strlit("target");
    reveal_strlit("type_arg_mode");
    reveal_strlit("params");
    assert("scope"@[0] != "label"@[0] && "target"@[0] != "params"@[0]);
    assert("scope"@.len() == 5 && "validator"@.len() == 9 && "path"@.len() == 4 && "label"@.len()
        == 5 && "target"@.len() == 6 && "type_arg_mode"@.len() == 13 && "params"@.len() == 6);
    let e0 = Seq::<(Seq<char>, Json)>::empty();
    let e1 = map_insert(e0, "scope"@, Json::String(scope_name(r.scope)));
    let e2 = map_insert(e1, "validator"@, Json::String(r.validator));
    let e3 = map_insert(e2, "path"@, Json::String(r.path));
    lemma_map_insert_get(e0, "scope"@, Json::String(scope_name(r.scope)), k);
    lemma_map_insert_get(e1, "validator"@, Json::String(r.validator), k);
    lemma_map_insert_get(e2, "path"@, Json::String(r.path), k);
    let e4 = match r.label {
        Some(l) => {
            lemma_map_insert_get(e3, "label"@, Json::String(l), k);
            map_insert(e3, "label"@, Json::String(l))
        },
        None => e3,
    };
    let e5 = match r.target {
        Some(t) => {
            lemma_map_insert_get(e4, "target"@, Json::String(target_name(t)), k);
            map_insert(e4, "target"@, Json::String(target_name(t)))
        },
        None => e4,
    };
    let mode = Json::String(type_arg_mode_name(r.type_arg_mode));
    let e6 = map_insert(e5, "type_arg_mode"@, mode);
    lemma_map_insert_get(e5, "type_arg_mode"@, mode, k);
    let e7 = if r.params.len() > 0 {
        lemma_map_insert_get(e6, "params"@, params_json(r.params), k);
        map_insert(e6, "params"@, params_json(r.params))
    } else {
        e6
    };
    assert(rule_json(r) == Json::Object(e7));
    assert(map_get(e0, k) is None);
}

/// The JSON description of a rule keeps every field of the rule: `scope`,
/// `validator`, `path` and `type_arg_mode` always, `label` and `target` exactly
/// when the rule has them, `params` exactly when there are parameters, each
/// under its own key and with its own value, and no other key.
pub proof fn lemma_rule_value_keeps_fields(r: RuleModel, k: Seq<char>)
    ensures
        rule_json(r) matches Json::Object(e) && {
            &&& map_get(e, "scope"@) == Some(Json::String(scope_name(r.scope)))
            &&& map_get(e, "validator"@) == Some(Json::String(r.validator))
            &&& map_get(e, "path"@) == Some(Json::String(r.path))
            &&& map_get(e, "type_arg_mode"@) == Some(
                Json::String(type_arg_mode_name(r.type_arg_mode)),
            )
            &&& map_get(e, "label"@) == (match r.label {
                Some(l) => Some(Json::String(l)),
                None => None,
            })
            &&& map_get(e, "target"@) == (match r.target {
                Some(t) => Some(Json::String(target_name(t))),
                None => None,
            })
            &&& map_get(e, "params"@) == (if r.params.len() == 0 {
                None
            } else {
                Some(params_json(r.params))
            })
            &&& (k != "scope"@ && k != "validator"@ && k != "path"@ && k != "label"@ && k
                != "target"@ && k != "type_arg_mode"@ && k != "params"@) ==> map_get(e, k)
                is None
        },
{
    reveal_strlit("scope");
    reveal_strlit("validator");
    reveal_strlit("path");
    reveal_strlit("label");
    reveal_strlit("target");
    reveal_strlit("type_arg_mode");
    reveal_strlit("params");
    assert("scope"@[0] != "label"@[0] && "target"@[0] != "params"@[0]);
    assert("scope"@.len() == 5 && "validator"@.len() == 9 && "path"@.len() == 4 && "label"@.len()
        == 5 && "target"@.len() == 6 && "type_arg_mode"@.len() == 13 && "params"@.len() == 6);
    lemma_rule_json_get(r, "scope"@);
    lemma_rule_json_get(r, "validator"@);
    lemma_rule_json_get(r, "path"@);
    lemma_rule_json_get(r, "label"@);
    lemma_rule_json_get(r, "target"@);
    lemma_rule_json_get(r, "type_arg_mode"@);
    lemma_rule_json_get(r, "params"@);
    lemma_rule_json_get(r, k);
}

} // verus!
