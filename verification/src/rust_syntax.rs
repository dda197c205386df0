//! Rust type, path and expression syntax stored as static metadata, checked
//! with `syn`.

use crate::text::concat3;
use vstd::prelude::*;
use vstd::string::*;

verus! {

#[verifier::external_type_specification]
#[verifier::external_body]
pub struct ExSynType(syn::Type);

#[verifier::external_type_specification]
#[verifier::external_body]
pub struct ExSynPath(syn::Path);

#[verifier::external_type_specification]
#[verifier::external_body]
pub struct ExSynExpr(syn::Expr);

/// What `syn::parse_str::<syn::Type>` reports for a text: `None` when the text
/// parses, else the message of its error.
pub uninterp spec fn syn_type_error(text: Seq<char>) -> Option<Seq<char>>;

/// What `syn::parse_str::<syn::Path>` reports for a text: `None` when the text
/// parses, else the message of its error.
pub uninterp spec fn syn_path_error(text: Seq<char>) -> Option<Seq<char>>;

/// What `syn::parse_str::<syn::Expr>` reports for a text: `None` when the text
/// parses, else the message of its error.
pub uninterp spec fn syn_expr_error(text: Seq<char>) -> Option<Seq<char>>;

/// `syn::parse_str::<syn::Type>`, with a failure turned into the error's
/// message (`syn::Error`'s `Display`). Claimed: `Ok` exactly when
/// `syn_type_error` is `None`, else the message is that error.
#[verifier::external_body]
fn parse_type_text(value: &str) -> (r: Result<syn::Type, String>)
    ensures
        match r {
            Ok(_) => syn_type_error(value@) is None,
            Err(m) => syn_type_error(value@) == Some(m@),
        },
{
    syn::parse_str::<syn::Type>(value).map_err(|error| error.to_string())
}

/// `syn::parse_str::<syn::Path>`, with a failure turned into the error's
/// message. Claimed: `Ok` exactly when `syn_path_error` is `None`, else the
/// message is that error.
#[verifier::external_body]
fn parse_path_text(value: &str) -> (r: Result<syn::Path, String>)
    ensures
        match r {
            Ok(_) => syn_path_error(value@) is None,
            Err(m) => syn_path_error(value@) == Some(m@),
        },
{
    syn::parse_str::<syn::Path>(value).map_err(|error| error.to_string())
}

/// `syn::parse_str::<syn::Expr>`, with a failure turned into the error's
/// message. Claimed: `Ok` exactly when `syn_expr_error` is `None`, else the
/// message is that error.
#[verifier::external_body]
fn parse_expr_text(value: &str) -> (r: Result<syn::Expr, String>)
    ensures
        match r {
            Ok(_) => syn_expr_error(value@) is None,
            Err(m) => syn_expr_error(value@) == Some(m@),
        },
{
    syn::parse_str::<syn::Expr>(value).map_err(|error| error.to_string())
}

/// Kind of Rust syntax stored as static metadata.
#[derive(Clone, Copy, Debug, PartialEq, Eq, Structural)]
pub enum RustSyntaxKind {
    /// A Rust type.
    Type,
    /// A Rust path.
    Path,
    /// A Rust expression.
    Expr,
}

/// The English label of a syntax kind.
pub open spec fn syntax_label(kind: RustSyntaxKind) -> Seq<char> {
    match kind {
        RustSyntaxKind::Type => "type"@,
        RustSyntaxKind::Path => "path"@,
        RustSyntaxKind::Expr => "expression"@,
    }
}

/// What the parser reports for a text of the given kind.
pub open spec fn syntax_error_of(kind: RustSyntaxKind, text: Seq<char>) -> Option<Seq<char>> {
    match kind {
        RustSyntaxKind::Type => syn_type_error(text),
        RustSyntaxKind::Path => syn_path_error(text),
        RustSyntaxKind::Expr => syn_expr_error(text),
    }
}

impl RustSyntaxKind {
    /// Returns the stable English label for this syntax kind.
    pub fn label(self) -> (r: &'static str)
        ensures
            r@ == syntax_label(self),
    {
        match self {
            RustSyntaxKind::Type => "type",
            RustSyntaxKind::Path => "path",
            RustSyntaxKind::Expr => "expression",
        }
    }
}

/// Error returned when Rust syntax metadata fails to parse.
#[derive(Clone, Debug, PartialEq, Eq)]
pub struct RustSyntaxError {
    kind: RustSyntaxKind,
    value: String,
    error: String,
}

/// Mathematical model of a syntax error.
pub struct SyntaxErrorModel {
    pub kind: RustSyntaxKind,
    pub value: Seq<char>,
    pub error: Seq<char>,
}

impl View for RustSyntaxError {
    type V = SyntaxErrorModel;

    closed spec fn view(&self) -> SyntaxErrorModel {
        SyntaxErrorModel { kind: self.kind, value: self.value@, error: self.error@ }
    }
}

/// The error's message: "invalid Rust {kind} metadata `{value}`: {error}".
pub open spec fn syntax_error_message(e: SyntaxErrorModel) -> Seq<char> {
    "invalid Rust "@ + syntax_label(e.kind) + " metadata `"@ + e.value + "`: "@ + e.error
}

impl RustSyntaxError {
    /// The error for metadata `value` of the given kind that the parser
    /// rejected with `message`.
    pub fn new(kind: RustSyntaxKind, value: &str, message: String) -> (r: Self)
        ensures
            r@ == (SyntaxErrorModel { kind, value: value@, error: message@ }),
    {
        RustSyntaxError { kind, value: String::from_str(value), error: message }
    }

    /// Returns the syntax kind that failed to parse.
    pub fn kind(&self) -> (r: RustSyntaxKind)
        ensures
            r == self@.kind,
    {
        self.kind
    }

    /// Returns the metadata string as given.
    pub fn value(&self) -> (r: &str)
        ensures
            r@ == self@.value,
    {
        self.value.as_str()
    }

    /// Returns the parser's error message.
    pub fn source_error(&self) -> (r: &str)
        ensures
            r@ == self@.error,
    {
        self.error.as_str()
    }

    /// The error message.
    pub fn message(&self) -> (r: String)
        ensures
            r@ == syntax_error_message(self@),
    {
        let mut s = concat3("invalid Rust ", self.kind.label(), " metadata `");
        s.append(self.value.as_str());
        s.append("`: ");
        s.append(self.error.as_str());
        s
    }
}

/// The result of checking metadata `value` of the given kind against what the
/// parser reported: `Ok` when it reported no error, else the syntax error.
pub open spec fn syntax_check(kind: RustSyntaxKind, value: Seq<char>) -> Result<(), SyntaxErrorModel> {
    match syntax_error_of(kind, value) {
        None => Ok(()),
        Some(m) => Err(SyntaxErrorModel { kind, value, error: m }),
    }
}

/// Rust type syntax stored as static metadata.
#[derive(Clone, Copy, Debug, PartialEq, Eq)]
pub struct RustType(&'static str);

/// Rust path syntax stored as static metadata.
#[derive(Clone, Copy, Debug, PartialEq, Eq)]
pub struct RustPath(&'static str);

/// Rust expression syntax stored as static metadata.
#[derive(Clone, Copy, Debug, PartialEq, Eq)]
pub struct RustExpr(&'static str);

impl View for RustType {
    type V = Seq<char>;

    closed spec fn view(&self) -> Seq<char> {
        self.0@
    }
}

impl View for RustPath {
    type V = Seq<char>;

    closed spec fn view(&self) -> Seq<char> {
        self.0@
    }
}

impl View for RustExpr {
    type V = Seq<char>;

    closed spec fn view(&self) -> Seq<char> {
        self.0@
    }
}

impl RustType {
    /// Validates Rust type syntax stored as static metadata.
    pub fn new(value: &'static str) -> (r: Result<Self, RustSyntaxError>)
        ensures
            match r {
                Ok(t) => syntax_check(RustSyntaxKind::Type, value@) is Ok && t@ == value@,
                Err(e) => syntax_check(RustSyntaxKind::Type, value@) == Err::<(), SyntaxErrorModel>(
                    e@,
                ),
            },
    {
        match parse_type_text(value) {
            Ok(_) => Ok(RustType(value)),
            Err(message) => Err(RustSyntaxError::new(RustSyntaxKind::Type, value, message)),
        }
    }

    /// Validates optional Rust type syntax: `None` passes, `Some` is checked.
    pub fn new_opt(value: Option<&'static str>) -> (r: Result<Option<Self>, RustSyntaxError>)
        ensures
            match value {
                None => r matches Ok(None),
                Some(v) => match r {
                    Ok(Some(t)) => syntax_check(RustSyntaxKind::Type, v@) is Ok && t@ == v@,
                    Ok(None) => false,
                    Err(e) => syntax_check(RustSyntaxKind::Type, v@) == Err::<(), SyntaxErrorModel>(
                        e@,
                    ),
                },
            },
    {
        match value {
            Some(v) => match Self::new(v) {
                Ok(t) => Ok(Some(t)),
                Err(e) => Err(e),
            },
            None => Ok(None),
        }
    }

    /// Stores Rust type syntax emitted by a trusted macro expansion.
    pub fn from_macro_tokens_unchecked(value: &'static str) -> (r: Self)
        ensures
            r@ == value@,
    {
        RustType(value)
    }

    /// Stores optional Rust type syntax emitted by a trusted macro expansion.
    pub fn from_macro_tokens_opt_unchecked(value: Option<&'static str>) -> (r: Option<Self>)
        ensures
            match value {
                Some(v) => r matches Some(t) && t@ == v@,
                None => r is None,
            },
    {
        match value {
            Some(value) => Some(Self::from_macro_tokens_unchecked(value)),
            None => None,
        }
    }

    /// Returns the stored Rust type syntax.
    pub fn as_str(self) -> (r: &'static str)
        ensures
            r@ == self@,
    {
        self.0
    }

    /// Parses the stored Rust type syntax.
    pub fn parse(self) -> (r: Result<syn::Type, RustSyntaxError>)
        ensures
            r is Ok <==> syntax_check(RustSyntaxKind::Type, self@) is Ok,
            match r {
                Ok(_) => true,
                Err(e) => syntax_check(RustSyntaxKind::Type, self@) == Err::<(), SyntaxErrorModel>(
                    e@,
                ),
            },
    {
        match parse_type_text(self.0) {
            Ok(t) => Ok(t),
            Err(message) => Err(RustSyntaxError::new(RustSyntaxKind::Type, self.0, message)),
        }
    }
}

impl RustPath {
    /// Validates Rust path syntax stored as static metadata.
    pub fn new(value: &'static str) -> (r: Result<Self, RustSyntaxError>)
        ensures
            match r {
                Ok(t) => syntax_check(RustSyntaxKind::Path, value@) is Ok && t@ == value@,
                Err(e) => syntax_check(RustSyntaxKind::Path, value@) == Err::<(), SyntaxErrorModel>(
                    e@,
                ),
            },
    {
        match parse_path_text(value) {
            Ok(_) => Ok(RustPath(value)),
            Err(message) => Err(RustSyntaxError::new(RustSyntaxKind::Path, value, message)),
        }
    }

    /// Stores Rust path syntax emitted by a trusted macro expansion.
    pub fn from_macro_tokens_unchecked(value: &'static str) -> (r: Self)
        ensures
            r@ == value@,
    {
        RustPath(value)
    }

    /// Returns the stored Rust path syntax.
    pub fn as_str(self) -> (r: &'static str)
        ensures
            r@ == self@,
    {
        self.0
    }

    /// Parses the stored Rust path syntax.
    pub fn parse(self) -> (r: Result<syn::Path, RustSyntaxError>)
        ensures
            r is Ok <==> syntax_check(RustSyntaxKind::Path, self@) is Ok,
            match r {
                Ok(_) => true,
                Err(e) => syntax_check(RustSyntaxKind::Path, self@) == Err::<(), SyntaxErrorModel>(
                    e@,
                ),
            },
    {
        match parse_path_text(self.0) {
            Ok(p) => Ok(p),
            Err(message) => Err(RustSyntaxError::new(RustSyntaxKind::Path, self.0, message)),
        }
    }
}

impl RustExpr {
    /// Validates Rust expression syntax stored as static metadata.
    pub fn new(value: &'static str) -> (r: Result<Self, RustSyntaxError>)
        ensures
            match r {
                Ok(t) => syntax_check(RustSyntaxKind::Expr, value@) is Ok && t@ == value@,
                Err(e) => syntax_check(RustSyntaxKind::Expr, value@) == Err::<(), SyntaxErrorModel>(
                    e@,
                ),
            },
    {
        match parse_expr_text(value) {
            Ok(_) => Ok(RustExpr(value)),
            Err(message) => Err(RustSyntaxError::new(RustSyntaxKind::Expr, value, message)),
        }
    }

    /// Stores Rust expression syntax emitted by a trusted macro expansion.
    pub fn from_macro_tokens_unchecked(value: &'static str) -> (r: Self)
        ensures
            r@ == value@,
    {
        RustExpr(value)
    }

    /// Returns the stored Rust expression syntax.
    pub fn as_str(self) -> (r: &'static str)
        ensures
            r@ == self@,
    {
        self.0
    }

    /// Parses the stored Rust expression syntax.
    pub fn parse(self) -> (r: Result<syn::Expr, RustSyntaxError>)
        ensures
            r is Ok <==> syntax_check(RustSyntaxKind::Expr, self@) is Ok,
            match r {
                Ok(_) => true,
                Err(e) => syntax_check(RustSyntaxKind::Expr, self@) == Err::<(), SyntaxErrorModel>(
                    e@,
                ),
            },
    {
        match parse_expr_text(self.0) {
            Ok(e) => Ok(e),
            Err(message) => Err(RustSyntaxError::new(RustSyntaxKind::Expr, self.0, message)),
        }
    }
}

} // verus!
