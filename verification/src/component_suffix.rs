//! Generated component helper suffixes: non-empty ASCII identifier suffixes.

use crate::text::{ascii_alnum, ascii_upper, ascii_lower, chars_of, is_ascii_alpha, is_ascii_digit};
use vstd::prelude::*;
use vstd::string::*;

verus! {

/// A character that may start an identifier suffix: `_` or an ASCII letter.
pub open spec fn is_ident_start(c: char) -> bool {
    c == '_' || is_ascii_alpha(c)
}

/// A character that may continue an identifier suffix.
pub open spec fn is_ident_continue(c: char) -> bool {
    is_ident_start(c) || is_ascii_digit(c)
}

/// A non-empty ASCII identifier suffix other than a lone `_`.
pub open spec fn is_ident_suffix(s: Seq<char>) -> bool {
    &&& s.len() > 0
    &&& s != seq!['_']
    &&& is_ident_start(s[0])
    &&& forall|i: int| 1 <= i < s.len() ==> is_ident_continue(#[trigger] s[i])
}

fn ident_start(c: char) -> (r: bool)
    ensures
        r == is_ident_start(c),
{
    c == '_' || ascii_upper(c) || ascii_lower(c)
}

fn ident_continue(c: char) -> (r: bool)
    ensures
        r == is_ident_continue(c),
{
    c == '_' || ascii_alnum(c)
}

/// Returns whether a component/prototyping suffix is a non-empty ASCII
/// identifier suffix.
pub fn is_valid_ascii_identifier_suffix(value: &str) -> (r: bool)
    ensures
        r == is_ident_suffix(value@),
{
    let chars = chars_of(value);
    let n = chars.len();
    if n == 0 {
        return false;
    }
    if n == 1 && chars[0] == '_' {
        assert(value@ =~= seq!['_']);
        return false;
    }
    if !ident_start(chars[0]) {
        return false;
    }
    let mut idx: usize = 1;
    while idx < n
        invariant
            n == chars@.len(),
            chars@ == value@,
            1 <= idx <= n,
            forall|i: int| 1 <= i < idx ==> is_ident_continue(#[trigger] chars@[i]),
        decreases n - idx,
    {
        if !ident_continue(chars[idx]) {
            return false;
        }
        idx = idx + 1;
    }
    assert(value@ != seq!['_']) by {
        if value@ =~= seq!['_'] {
            assert(n == 1);
        }
    }
    true
}

/// Whether `value` is a valid component suffix.
pub fn is_valid_component_suffix(value: &str) -> (r: bool)
    ensures
        r == is_ident_suffix(value@),
{
    is_valid_ascii_identifier_suffix(value)
}

/// A character of the ASCII identifier alphabet: `_`, `A`–`Z`, `a`–`z`, and,
/// after the first position, `0`–`9`.
pub open spec fn suffix_char_ok(c: char, first: bool) -> bool {
    c == '_' || ('A' <= c && c <= 'Z') || ('a' <= c && c <= 'z') || (!first && '0' <= c && c
        <= '9')
}

/// A suffix is accepted exactly when it matches `[A-Za-z_][A-Za-z0-9_]*` and
/// is not a lone `_`: letters of either case, digits after the first place,
/// and underscores are identifier characters, and nothing else is.
pub proof fn lemma_suffix_accepts_exactly_identifiers(s: Seq<char>)
    ensures
        is_ident_suffix(s) <==> (s.len() > 0 && s != seq!['_'] && suffix_char_ok(s[0], true)
            && forall|i: int| 1 <= i < s.len() ==> suffix_char_ok(#[trigger] s[i], false)),
{
    if s.len() > 0 {
        assert(is_ident_start(s[0]) <==> suffix_char_ok(s[0], true));
        assert forall|i: int| 1 <= i < s.len() implies (is_ident_continue(#[trigger] s[i])
            <==> suffix_char_ok(s[i], false)) by {}
    }
}

/// Every suffix made of an ASCII letter or `_` followed by ASCII letters,
/// digits and `_` is accepted, unless it is a lone `_`; in particular a
/// suffix with uppercase letters, such as `Input`, is accepted.
pub proof fn lemma_mixed_case_suffix_accepted(s: Seq<char>)
    requires
        s.len() > 0,
        s != seq!['_'],
        suffix_char_ok(s[0], true),
        forall|i: int| 1 <= i < s.len() ==> suffix_char_ok(#[trigger] s[i], false),
    ensures
        is_ident_suffix(s),
{
    lemma_suffix_accepts_exactly_identifiers(s);
}

/// Error for a component suffix that is not a non-empty ASCII identifier
/// suffix.
#[derive(Clone, Debug, PartialEq, Eq)]
pub struct ComponentSuffixError {
    value: String,
}

impl ComponentSuffixError {
    /// The rejected suffix text.
    pub closed spec fn spec_value(&self) -> Seq<char> {
        self.value@
    }

    /// The rejected suffix text.
    pub fn value(&self) -> (r: &str)
        ensures
            r@ == self.spec_value(),
    {
        self.value.as_str()
    }

    /// The error message.
    pub fn message(&self) -> (r: String)
        ensures
            r@ == "`field_suffix` must be a non-empty ASCII identifier suffix, got `"@
                + self.spec_value() + "`"@,
    {
        crate::text::concat3(
            "`field_suffix` must be a non-empty ASCII identifier suffix, got `",
            self.value.as_str(),
            "`",
        )
    }
}

/// `Ok` for a valid component suffix, else an error carrying the value.
pub fn validate_component_suffix(value: &str) -> (r: Result<(), ComponentSuffixError>)
    ensures
        r is Ok <==> is_ident_suffix(value@),
        match r {
            Ok(()) => true,
            Err(e) => e.spec_value() == value@,
        },
{
    if is_valid_component_suffix(value) {
        Ok(())
    } else {
        Err(ComponentSuffixError { value: String::from_str(value) })
    }
}

/// Preferred generated component helper suffix.
#[derive(Clone, Copy, Debug, PartialEq, Eq)]
pub struct ComponentSuffix(&'static str);

impl View for ComponentSuffix {
    type V = Seq<char>;

    closed spec fn view(&self) -> Seq<char> {
        self.0@
    }
}

impl ComponentSuffix {
    /// Every suffix is a valid component suffix.
    #[verifier::type_invariant]
    spec fn holds_valid_suffix(self) -> bool {
        is_ident_suffix(self.0@)
    }

    /// A suffix; the value must be a valid component suffix.
    pub fn new(value: &'static str) -> (r: Self)
        requires
            is_ident_suffix(value@),
        ensures
            r@ == value@,
    {
        ComponentSuffix(value)
    }

    /// `new` applied to a present value.
    pub fn new_opt(value: Option<&'static str>) -> (r: Option<Self>)
        requires
            value matches Some(v) ==> is_ident_suffix(v@),
        ensures
            match value {
                Some(v) => r matches Some(s) && s@ == v@,
                None => r is None,
            },
    {
        match value {
            Some(value) => Some(Self::new(value)),
            None => None,
        }
    }

    /// The suffix text.
    pub fn as_str(self) -> (r: &'static str)
        ensures
            r@ == self@,
            is_ident_suffix(r@),
    {
        proof {
            use_type_invariant(&self);
        }
        self.0
    }
}

} // verus!
