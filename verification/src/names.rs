//! Stable, MCP-friendly tool names derived from a module path and a subject.

use crate::mcp_input::{is_tool_name_char, tool_name_check};
use crate::text::{
    ascii_digit, ascii_lower, ascii_to_lower, ascii_upper, chars_of, is_ascii_alnum,
    is_ascii_digit, is_ascii_lower, is_ascii_upper, is_blank, is_unicode_whitespace,
    string_from_chars, to_ascii_lower,
};
use vstd::prelude::*;

verus! {

/// The class of an ASCII letter or digit in a name.
#[derive(Clone, Copy, PartialEq, Eq, Structural)]
pub enum CharKind {
    Upper,
    Lower,
    Digit,
}

/// The state of the name builder after some characters.
pub struct NameState {
    pub out: Seq<char>,
    pub last_was_separator: bool,
    pub last_kind: Option<CharKind>,
}

/// The characters the name is built from: the module path, `_`, the subject.
pub open spec fn name_input(source: Seq<char>, subject: Seq<char>) -> Seq<char> {
    source + seq!['_'] + subject
}

pub open spec fn char_kind(c: char) -> Option<CharKind> {
    if is_ascii_upper(c) {
        Some(CharKind::Upper)
    } else if is_ascii_lower(c) {
        Some(CharKind::Lower)
    } else if is_ascii_digit(c) {
        Some(CharKind::Digit)
    } else {
        None
    }
}

/// Whether an uppercase letter at `idx` starts a new word: after a lowercase
/// letter or digit, or after an uppercase letter when a lowercase letter
/// follows (`HTTPServer` splits before `Server`).
pub open spec fn starts_word(input: Seq<char>, idx: int, st: NameState) -> bool {
    &&& !st.last_was_separator
    &&& st.out.len() > 0
    &&& (st.last_kind == Some(CharKind::Lower) || st.last_kind == Some(CharKind::Digit) || (
    st.last_kind == Some(CharKind::Upper) && idx + 1 < input.len() && is_ascii_lower(
        input[idx + 1],
    )))
}

/// One step of the builder: letters and digits are appended in lowercase,
/// with `_` before a new word; any other character becomes one `_` separator
/// (never at the start, never twice).
pub open spec fn name_step(input: Seq<char>, idx: int, st: NameState) -> NameState {
    let ch = input[idx];
    match char_kind(ch) {
        Some(kind) => {
            let out1 = if kind == CharKind::Upper && starts_word(input, idx, st) {
                st.out.push('_')
            } else {
                st.out
            };
            NameState {
                out: out1.push(to_ascii_lower(ch)),
                last_was_separator: false,
                last_kind: Some(kind),
            }
        },
        None => if !st.last_was_separator && st.out.len() > 0 {
            NameState { out: st.out.push('_'), last_was_separator: true, last_kind: None }
        } else {
            NameState { out: st.out, last_was_separator: st.last_was_separator, last_kind: None }
        },
    }
}

/// The builder state after the first `n` characters.
pub open spec fn name_run(input: Seq<char>, n: int) -> NameState
    decreases n,
{
    if n <= 0 {
        NameState { out: Seq::empty(), last_was_separator: false, last_kind: None }
    } else {
        name_step(input, n - 1, name_run(input, n - 1))
    }
}

/// `s` without its trailing underscores.
pub open spec fn trim_underscores(s: Seq<char>) -> Seq<char>
    decreases s.len(),
{
    if s.len() > 0 && s.last() == '_' {
        trim_underscores(s.drop_last())
    } else {
        s
    }
}

/// The built name without trailing underscores, before any fallback prefix.
pub open spec fn tool_name_core(source: Seq<char>, subject: Seq<char>) -> Seq<char> {
    let input = name_input(source, subject);
    trim_underscores(name_run(input, input.len() as int).out)
}

/// The generated tool name: the built name without trailing underscores,
/// prefixed with `fallback_prefix` when it is empty or starts with a digit.
pub open spec fn tool_name_text(source: Seq<char>, subject: Seq<char>, prefix: Seq<char>) -> Seq<
    char,
> {
    let t = tool_name_core(source, subject);
    if t.len() == 0 || is_ascii_digit(t[0]) {
        prefix + t
    } else {
        t
    }
}

fn kind_of(c: char) -> (r: Option<CharKind>)
    ensures
        r == char_kind(c),
{
    if ascii_upper(c) {
        Some(CharKind::Upper)
    } else if ascii_lower(c) {
        Some(CharKind::Lower)
    } else if ascii_digit(c) {
        Some(CharKind::Digit)
    } else {
        None
    }
}

/// A stable, MCP-friendly snake-case tool name built from a module path and a
/// subject identifier.
pub fn tool_name(source_module_path: &str, subject_id: &str, fallback_prefix: &str) -> (r: String)
    ensures
        r@ == tool_name_text(source_module_path@, subject_id@, fallback_prefix@),
{
    let mut input = chars_of(source_module_path);
    input.push('_');
    let mut rest = chars_of(subject_id);
    input.append(&mut rest);
    let ghost inp = name_input(source_module_path@, subject_id@);
    assert(input@ =~= inp);
    let n = input.len();
    let mut output: Vec<char> = Vec::new();
    let mut last_was_separator = false;
    let mut last_kind: Option<CharKind> = None;
    let mut index: usize = 0;
    while index < n
        invariant
            n == input@.len(),
            input@ == inp,
            index <= n,
            name_run(inp, index as int) == (NameState {
                out: output@,
                last_was_separator,
                last_kind,
            }),
        decreases n - index,
    {
        let ghost st = NameState { out: output@, last_was_separator, last_kind };
        let ch = input[index];
        match kind_of(ch) {
            Some(kind) => {
                if kind == CharKind::Upper && !last_was_separator && output.len() > 0 {
                    let next_is_lower = index + 1 < n && ascii_lower(input[index + 1]);
                    let after_word = match last_kind {
                        Some(CharKind::Lower) => true,
                        Some(CharKind::Digit) => true,
                        Some(CharKind::Upper) => next_is_lower,
                        None => false,
                    };
                    if after_word {
                        output.push('_');
                    }
                }
                output.push(ascii_to_lower(ch));
                last_was_separator = false;
                last_kind = Some(kind);
            },
            None => {
                if !last_was_separator && output.len() > 0 {
                    output.push('_');
                    last_was_separator = true;
                }
                last_kind = None;
            },
        }
        assert(name_step(inp, index as int, st) == (NameState {
            out: output@,
            last_was_separator,
            last_kind,
        }));
        index = index + 1;
    }
    let ghost built = output@;
    while output.len() > 0 && output[output.len() - 1] == '_'
        invariant
            trim_underscores(built) == trim_underscores(output@),
        decreases output@.len(),
    {
        let ghost before = output@;
        output.pop();
        assert(output@ =~= before.drop_last());
    }
    if output.len() == 0 || ascii_digit(output[0]) {
        let mut prefixed = chars_of(fallback_prefix);
        prefixed.append(&mut output);
        string_from_chars(&prefixed)
    } else {
        string_from_chars(&output)
    }
}

// ---------------------------------------------------------------------------
// Laws
// ---------------------------------------------------------------------------
/// The characters a built name is made of: lowercase letters, digits, `_`.
pub open spec fn is_name_char(c: char) -> bool {
    is_ascii_lower(c) || is_ascii_digit(c) || c == '_'
}

proof fn lemma_run_shape(input: Seq<char>, n: int)
    requires
        0 <= n <= input.len(),
    ensures
        forall|i: int|
            0 <= i < name_run(input, n).out.len() ==> is_name_char(
                #[trigger] name_run(input, n).out[i],
            ),
        name_run(input, n).out.len() > 0 ==> name_run(input, n).out[0] != '_',
    decreases n,
{
    if n > 0 {
        lemma_run_shape(input, n - 1);
        let st = name_run(input, n - 1);
        let ch = input[n - 1];
        assert(is_ascii_upper(ch) ==> is_ascii_lower(to_ascii_lower(ch)));
        assert(!is_ascii_upper(ch) ==> to_ascii_lower(ch) == ch);
        let next = name_step(input, n - 1, st);
        assert forall|i: int| 0 <= i < next.out.len() implies is_name_char(#[trigger] next.out[i]) by {
            if i < st.out.len() {
                assert(next.out[i] == st.out[i]);
            }
        }
    }
}

proof fn lemma_trim_shape(s: Seq<char>)
    requires
        forall|i: int| 0 <= i < s.len() ==> is_name_char(#[trigger] s[i]),
        s.len() > 0 ==> s[0] != '_',
    ensures
        forall|i: int| 0 <= i < trim_underscores(s).len() ==> is_name_char(
            #[trigger] trim_underscores(s)[i],
        ),
        trim_underscores(s).len() > 0 ==> trim_underscores(s)[0] != '_',
        trim_underscores(s).len() > 0 ==> trim_underscores(s).last() != '_',
    decreases s.len(),
{
    if s.len() > 0 && s.last() == '_' {
        let d = s.drop_last();
        assert forall|i: int| 0 <= i < d.len() implies is_name_char(#[trigger] d[i]) by {
            assert(d[i] == s[i]);
        }
        lemma_trim_shape(d);
    }
}

/// Every generated tool name passes the tool-name check, when the fallback
/// prefix itself starts with an ASCII letter and holds only tool-name
/// characters.
pub proof fn lemma_tool_name_is_valid(source: Seq<char>, subject: Seq<char>, prefix: Seq<char>)
    requires
        prefix.len() > 0,
        is_ascii_alnum(prefix[0]),
        !is_ascii_digit(prefix[0]),
        forall|i: int| 0 <= i < prefix.len() ==> is_tool_name_char(#[trigger] prefix[i]),
    ensures
        tool_name_check(tool_name_text(source, subject, prefix)) == Ok::<(), crate::mcp_input::MetadataErrorModel>(()),
{
    let input = name_input(source, subject);
    lemma_run_shape(input, input.len() as int);
    let built = name_run(input, input.len() as int).out;
    lemma_trim_shape(built);
    let t = trim_underscores(built);
    let name = tool_name_text(source, subject, prefix);
    if t.len() == 0 || is_ascii_digit(t[0]) {
        assert(name == prefix + t);
        assert forall|i: int| 1 <= i < name.len() implies is_tool_name_char(#[trigger] name[i]) by {
            if i < prefix.len() {
                assert(name[i] == prefix[i]);
            } else {
                assert(name[i] == t[i - prefix.len()]);
            }
        }
        assert(name[0] == prefix[0]);
    } else {
        assert(name == t);
        assert forall|i: int| 1 <= i < name.len() implies is_tool_name_char(#[trigger] name[i]) by {
            assert(is_name_char(t[i]));
        }
        assert(is_name_char(t[0]));
    }
    assert(!is_unicode_whitespace(name[0]));
    assert(!is_blank(name));
}


/// `s` with every `_` taken out.
pub open spec fn without_underscores(s: Seq<char>) -> Seq<char> {
    s.filter(|c: char| c != '_')
}

/// The ASCII letters and digits of `s`, in order and in lowercase.
pub open spec fn lowered_alnum(s: Seq<char>) -> Seq<char> {
    s.filter(|c: char| is_ascii_alnum(c)).map_values(|c: char| to_ascii_lower(c))
}

proof fn lemma_filter_push(s: Seq<char>, x: char, p: spec_fn(char) -> bool)
    ensures
        s.push(x).filter(p) == (if p(x) {
            s.filter(p).push(x)
        } else {
            s.filter(p)
        }),
{
    reveal(Seq::filter);
    assert(s.push(x).drop_last() =~= s);
}

proof fn lemma_lowered_alnum_push(s: Seq<char>, x: char)
    ensures
        lowered_alnum(s.push(x)) == (if is_ascii_alnum(x) {
            lowered_alnum(s).push(to_ascii_lower(x))
        } else {
            lowered_alnum(s)
        }),
{
    lemma_filter_push(s, x, |c: char| is_ascii_alnum(c));
    let f = s.filter(|c: char| is_ascii_alnum(c));
    if is_ascii_alnum(x) {
        assert(f.push(x).map_values(|c: char| to_ascii_lower(c)) =~= f.map_values(
            |c: char| to_ascii_lower(c),
        ).push(to_ascii_lower(x)));
    }
}

proof fn lemma_without_underscores_push(s: Seq<char>, x: char)
    ensures
        without_underscores(s.push(x)) == (if x != '_' {
            without_underscores(s).push(x)
        } else {
            without_underscores(s)
        }),
{
    lemma_filter_push(s, x, |c: char| c != '_');
}

proof fn lemma_run_words(input: Seq<char>, n: int)
    requires
        0 <= n <= input.len(),
    ensures
        ({
            let st = name_run(input, n);
            &&& st.out.len() > 0 ==> (st.last_was_separator <==> st.out.last() == '_')
            &&& st.out.len() == 0 ==> !st.last_was_separator
            &&& forall|i: int|
                0 <= i < st.out.len() - 1 ==> !(#[trigger] st.out[i] == '_' && st.out[i + 1]
                    == '_')
            &&& without_underscores(st.out) == lowered_alnum(input.take(n))
        }),
    decreases n,
{
    if n == 0 {
        reveal(Seq::filter);
        assert(input.take(0) =~= Seq::<char>::empty());
        assert(lowered_alnum(Seq::<char>::empty()) =~= Seq::<char>::empty());
    } else {
        lemma_run_words(input, n - 1);
        let st = name_run(input, n - 1);
        let ch = input[n - 1];
        let next = name_run(input, n);
        assert(input.take(n) =~= input.take(n - 1).push(ch));
        lemma_lowered_alnum_push(input.take(n - 1), ch);
        assert(is_ascii_upper(ch) ==> is_ascii_lower(to_ascii_lower(ch)));
        assert(!is_ascii_upper(ch) ==> to_ascii_lower(ch) == ch);
        match char_kind(ch) {
            Some(kind) => {
                let out1 = if kind == CharKind::Upper && starts_word(input, n - 1, st) {
                    st.out.push('_')
                } else {
                    st.out
                };
                lemma_without_underscores_push(st.out, '_');
                lemma_without_underscores_push(out1, to_ascii_lower(ch));
                assert(next.out == out1.push(to_ascii_lower(ch)));
                assert forall|i: int| 0 <= i < next.out.len() - 1 implies !(
                #[trigger] next.out[i] == '_' && next.out[i + 1] == '_') by {
                    if i + 1 < st.out.len() {
                        assert(next.out[i] == st.out[i] && next.out[i + 1] == st.out[i + 1]);
                    } else if i + 1 == st.out.len() {
                        assert(next.out[i] == st.out[i]);
                    }
                }
            },
            None => {
                lemma_without_underscores_push(st.out, '_');
                assert forall|i: int| 0 <= i < next.out.len() - 1 implies !(
                #[trigger] next.out[i] == '_' && next.out[i + 1] == '_') by {
                    if i + 1 < st.out.len() {
                        assert(next.out[i] == st.out[i] && next.out[i + 1] == st.out[i + 1]);
                    } else if i + 1 == st.out.len() {
                        assert(next.out[i] == st.out[i]);
                    }
                }
            },
        }
    }
}

proof fn lemma_trim_words(s: Seq<char>)
    requires
        forall|i: int| 0 <= i < s.len() - 1 ==> !(#[trigger] s[i] == '_' && s[i + 1] == '_'),
    ensures
        forall|i: int|
            0 <= i < trim_underscores(s).len() - 1 ==> !(#[trigger] trim_underscores(s)[i] == '_'
                && trim_underscores(s)[i + 1] == '_'),
        without_underscores(trim_underscores(s)) == without_underscores(s),
    decreases s.len(),
{
    if s.len() > 0 && s.last() == '_' {
        let d = s.drop_last();
        assert(d.push('_') =~= s);
        lemma_without_underscores_push(d, '_');
        assert forall|i: int| 0 <= i < d.len() - 1 implies !(#[trigger] d[i] == '_' && d[i + 1]
            == '_') by {
            assert(d[i] == s[i] && d[i + 1] == s[i + 1]);
        }
        lemma_trim_words(d);
    }
}

/// Shape of every generated tool name. Its core is made of lowercase ASCII
/// letters, digits and `_`, neither starts nor ends with `_`, never holds two
/// `_` in a row, and with its `_` taken out is exactly the ASCII letters and
/// digits of the module path followed by the subject, lowercased. The name is
/// the core, behind the fallback prefix when the core is empty or starts
/// with a digit.
pub proof fn lemma_tool_name_shape(source: Seq<char>, subject: Seq<char>, prefix: Seq<char>)
    ensures
        ({
            let c = tool_name_core(source, subject);
            &&& tool_name_text(source, subject, prefix) == (if c.len() == 0 || is_ascii_digit(
                c[0],
            ) {
                prefix + c
            } else {
                c
            })
            &&& forall|i: int| 0 <= i < c.len() ==> is_name_char(#[trigger] c[i])
            &&& c.len() > 0 ==> c[0] != '_' && c.last() != '_'
            &&& forall|i: int|
                0 <= i < c.len() - 1 ==> !(#[trigger] c[i] == '_' && c[i + 1] == '_')
            &&& without_underscores(c) == lowered_alnum(source + subject)
        }),
{
    let input = name_input(source, subject);
    lemma_run_shape(input, input.len() as int);
    lemma_run_words(input, input.len() as int);
    let built = name_run(input, input.len() as int).out;
    lemma_trim_shape(built);
    lemma_trim_words(built);
    assert(input.take(input.len() as int) =~= input);
    let p = |c: char| is_ascii_alnum(c);
    Seq::filter_distributes_over_add(source + seq!['_'], subject, p);
    Seq::filter_distributes_over_add(source, seq!['_'], p);
    Seq::filter_distributes_over_add(source, subject, p);
    reveal(Seq::filter);
    assert(seq!['_'] =~= Seq::<char>::empty().push('_'));
    lemma_filter_push(Seq::<char>::empty(), '_', p);
    assert(seq!['_'].filter(p) =~= Seq::<char>::empty());
    assert(input.filter(p) =~= (source + subject).filter(p));
}


/// Whether `t` occurs in `s` as a run of consecutive characters.
pub open spec fn has_run(s: Seq<char>, t: Seq<char>) -> bool {
    exists|k: int| 0 <= k && k + t.len() <= s.len() && #[trigger] s.subrange(k, k + t.len()) == t
}

/// Whether a new word starts between the ASCII letters or digits at `i` and
/// `i + 1`: an uppercase letter after a lowercase letter or a digit, or an
/// uppercase letter after an uppercase letter when a lowercase letter
/// follows it (`HTTPServer` breaks before `Server`).
pub open spec fn word_break_after(input: Seq<char>, i: int) -> bool {
    is_ascii_upper(input[i + 1]) && (is_ascii_lower(input[i]) || is_ascii_digit(input[i]) || (
    is_ascii_upper(input[i]) && i + 2 < input.len() && is_ascii_lower(input[i + 2])))
}

proof fn lemma_run_prefix(input: Seq<char>, n: int, m: int)
    requires
        0 <= n <= m <= input.len(),
    ensures
        name_run(input, n).out.len() <= name_run(input, m).out.len(),
        name_run(input, m).out.subrange(0, name_run(input, n).out.len() as int) == name_run(
            input,
            n,
        ).out,
    decreases m - n,
{
    if n < m {
        lemma_run_prefix(input, n, m - 1);
        let a = name_run(input, n).out;
        let b = name_run(input, m - 1).out;
        let c = name_run(input, m).out;
        assert(c.subrange(0, b.len() as int) == b);
        assert(c.subrange(0, a.len() as int) =~= b.subrange(0, a.len() as int));
    } else {
        assert(name_run(input, m).out.subrange(0, name_run(input, m).out.len() as int)
            =~= name_run(input, m).out);
    }
}

proof fn lemma_run_after_alnum(input: Seq<char>, n: int)
    requires
        1 <= n <= input.len(),
        is_ascii_alnum(input[n - 1]),
    ensures
        name_run(input, n).out.len() > 0,
        name_run(input, n).out.last() == to_ascii_lower(input[n - 1]),
        !name_run(input, n).last_was_separator,
        name_run(input, n).last_kind == char_kind(input[n - 1]),
{
}

proof fn lemma_trim_prefix(s: Seq<char>)
    ensures
        trim_underscores(s).len() <= s.len(),
        trim_underscores(s) == s.subrange(0, trim_underscores(s).len() as int),
        forall|x: int| trim_underscores(s).len() <= x < s.len() ==> #[trigger] s[x] == '_',
    decreases s.len(),
{
    if s.len() > 0 && s.last() == '_' {
        let d = s.drop_last();
        lemma_trim_prefix(d);
        let t = trim_underscores(d);
        assert(t == s.subrange(0, t.len() as int)) by {
            assert(d.subrange(0, t.len() as int) =~= s.subrange(0, t.len() as int));
        }
        assert forall|x: int| t.len() <= x < s.len() implies #[trigger] s[x] == '_' by {
            if x < d.len() {
                assert(s[x] == d[x]);
            }
        }
    } else {
        assert(s.subrange(0, s.len() as int) =~= s);
    }
}

/// A run that some builder state ends with, and whose last character is not
/// `_`, occurs in the generated name.
proof fn lemma_run_reaches_name(
    source: Seq<char>,
    subject: Seq<char>,
    prefix: Seq<char>,
    n: int,
    t: Seq<char>,
)
    requires
        0 <= n <= name_input(source, subject).len(),
        t.len() > 0,
        t.last() != '_',
        t.len() <= name_run(name_input(source, subject), n).out.len(),
        name_run(name_input(source, subject), n).out.subrange(
            name_run(name_input(source, subject), n).out.len() - t.len(),
            name_run(name_input(source, subject), n).out.len() as int,
        ) == t,
    ensures
        has_run(tool_name_text(source, subject, prefix), t),
{
    let input = name_input(source, subject);
    let full = input.len() as int;
    let a = name_run(input, n).out;
    let b = name_run(input, full).out;
    lemma_run_prefix(input, n, full);
    let k = a.len() - t.len();
    assert(b.subrange(k, k + t.len()) =~= a.subrange(k, a.len() as int));
    let c = tool_name_core(source, subject);
    lemma_trim_prefix(b);
    assert(b[k + t.len() - 1] == t.last()) by {
        assert(b.subrange(k, k + t.len())[t.len() - 1] == b[k + t.len() - 1]);
    }
    assert(k + t.len() <= c.len());
    assert(c.subrange(k, k + t.len()) =~= b.subrange(k, k + t.len()));
    assert(has_run(c, t));
    let name = tool_name_text(source, subject, prefix);
    if c.len() == 0 || is_ascii_digit(c[0]) {
        assert(name == prefix + c);
        let k2 = prefix.len() + k;
        assert(name.subrange(k2, k2 + t.len()) =~= c.subrange(k, k + t.len()));
        assert(has_run(name, t));
    }
}

proof fn lemma_lower_alnum(c: char)
    requires
        is_ascii_alnum(c),
    ensures
        to_ascii_lower(c) != '_',
        is_ascii_lower(to_ascii_lower(c)) || is_ascii_digit(to_ascii_lower(c)),
{
}

/// Word boundaries of generated tool names. For two ASCII letters or digits
/// next to each other in the module path, `_` and the subject, the name holds
/// them lowercased with `_` between them exactly when a new word starts
/// there (an uppercase letter after a lowercase letter or a digit, or an
/// uppercase letter after an uppercase letter that a lowercase letter
/// follows), and holds them lowercased side by side otherwise.
pub proof fn lemma_tool_name_word_boundaries(
    source: Seq<char>,
    subject: Seq<char>,
    prefix: Seq<char>,
    i: int,
)
    requires
        0 <= i,
        i + 1 < (source + seq!['_'] + subject).len(),
        is_ascii_alnum((source + seq!['_'] + subject)[i]),
        is_ascii_alnum((source + seq!['_'] + subject)[i + 1]),
    ensures
        ({
            let input = source + seq!['_'] + subject;
            let name = tool_name_text(source, subject, prefix);
            &&& word_break_after(input, i) ==> has_run(
                name,
                seq![to_ascii_lower(input[i]), '_', to_ascii_lower(input[i + 1])],
            )
            &&& !word_break_after(input, i) ==> has_run(
                name,
                seq![to_ascii_lower(input[i]), to_ascii_lower(input[i + 1])],
            )
        }),
{
    let input = name_input(source, subject);
    lemma_run_after_alnum(input, i + 1);
    lemma_lower_alnum(input[i]);
    lemma_lower_alnum(input[i + 1]);
    let st = name_run(input, i + 1);
    let out = name_run(input, i + 2).out;
    let x = to_ascii_lower(input[i]);
    let y = to_ascii_lower(input[i + 1]);
    assert(name_run(input, i + 2) == name_step(input, i + 1, st));
    if word_break_after(input, i) {
        assert(starts_word(input, i + 1, st));
        assert(out == st.out.push('_').push(y));
        let t = seq![x, '_', y];
        assert(out.subrange(out.len() - 3, out.len() as int) =~= t) by {
            assert(out[out.len() - 3] == st.out.last());
        }
        lemma_run_reaches_name(source, subject, prefix, i + 2, t);
    } else {
        assert(!(is_ascii_upper(input[i + 1]) && starts_word(input, i + 1, st)));
        assert(out == st.out.push(y));
        let t = seq![x, y];
        assert(out.subrange(out.len() - 2, out.len() as int) =~= t) by {
            assert(out[out.len() - 2] == st.out.last());
        }
        lemma_run_reaches_name(source, subject, prefix, i + 2, t);
    }
}

proof fn lemma_separator_run(input: Seq<char>, i: int, m: int)
    requires
        0 <= i,
        i + 2 <= m <= input.len(),
        is_ascii_alnum(input[i]),
        forall|x: int| i < x < m ==> !is_ascii_alnum(#[trigger] input[x]),
    ensures
        name_run(input, m) == (NameState {
            out: name_run(input, i + 1).out.push('_'),
            last_was_separator: true,
            last_kind: None,
        }),
    decreases m,
{
    lemma_run_after_alnum(input, i + 1);
    if m > i + 2 {
        lemma_separator_run(input, i, m - 1);
        assert(!is_ascii_alnum(input[m - 1]));
    } else {
        assert(!is_ascii_alnum(input[i + 1]));
    }
}

/// Any run of characters other than ASCII letters and digits between two
/// letters or digits becomes a single `_` in the generated name, between
/// the two lowercased.
pub proof fn lemma_tool_name_separators(
    source: Seq<char>,
    subject: Seq<char>,
    prefix: Seq<char>,
    i: int,
    j: int,
)
    requires
        0 <= i,
        i + 1 < j < (source + seq!['_'] + subject).len(),
        is_ascii_alnum((source + seq!['_'] + subject)[i]),
        is_ascii_alnum((source + seq!['_'] + subject)[j]),
        forall|x: int| i < x < j ==> !is_ascii_alnum(#[trigger] (source + seq!['_'] + subject)[x]),
    ensures
        has_run(
            tool_name_text(source, subject, prefix),
            seq![
                to_ascii_lower((source + seq!['_'] + subject)[i]),
                '_',
                to_ascii_lower((source + seq!['_'] + subject)[j]),
            ],
        ),
{
    let input = name_input(source, subject);
    lemma_separator_run(input, i, j);
    lemma_run_after_alnum(input, i + 1);
    lemma_lower_alnum(input[i]);
    lemma_lower_alnum(input[j]);
    let st = name_run(input, j);
    let out = name_run(input, j + 1).out;
    let y = to_ascii_lower(input[j]);
    assert(name_run(input, j + 1) == name_step(input, j, st));
    assert(out == st.out.push(y));
    let t = seq![to_ascii_lower(input[i]), '_', y];
    assert(out.subrange(out.len() - 3, out.len() as int) =~= t) by {
        assert(out[out.len() - 3] == name_run(input, i + 1).out.last());
    }
    lemma_run_reaches_name(source, subject, prefix, j + 1, t);
}

} // verus!
