//! Reading the text of Rust literals: unsigned and signed integers, booleans
//! and decimal floating-point numbers, as `str::parse` reads them.

use crate::json::{copy_str, str_eq, Json, JsonNumber, JsonValue, NumberModel};
use crate::text::{ascii_digit, chars_of, is_ascii_digit, string_from_chars};
use vstd::prelude::*;
use vstd::string::*;

verus! {

/// The value of an ASCII digit.
pub open spec fn digit_value(c: char) -> nat {
    ((c as int) - ('0' as int)) as nat
}

/// Whether every character is an ASCII digit.
pub open spec fn all_digits(s: Seq<char>) -> bool {
    forall|i: int| 0 <= i < s.len() ==> is_ascii_digit(#[trigger] s[i])
}

/// The number written by a run of decimal digits.
pub open spec fn digits_value(s: Seq<char>) -> nat
    decreases s.len(),
{
    if s.len() == 0 {
        0
    } else {
        digits_value(s.drop_last()) * 10 + digit_value(s.last())
    }
}

/// A non-empty run of digits whose value fits in `u64`.
pub open spec fn digits_u64(b: Seq<char>) -> Option<u64> {
    if b.len() > 0 && all_digits(b) && digits_value(b) <= u64::MAX {
        Some(digits_value(b) as u64)
    } else {
        None
    }
}

/// `str::parse::<u64>`: an optional `+` and one or more digits, in range.
pub open spec fn parse_u64_text(l: Seq<char>) -> Option<u64> {
    if l.len() > 0 && l[0] == '+' {
        digits_u64(l.drop_first())
    } else {
        digits_u64(l)
    }
}

/// `str::parse::<i64>`: an optional sign and one or more digits, in range.
pub open spec fn parse_i64_text(l: Seq<char>) -> Option<i64> {
    if l.len() > 0 && l[0] == '-' {
        match digits_u64(l.drop_first()) {
            Some(m) => if m <= 0x8000_0000_0000_0000u64 {
                Some((-(m as int)) as i64)
            } else {
                None
            },
            None => None,
        }
    } else {
        match parse_u64_text(l) {
            Some(m) => if m <= i64::MAX {
                Some(m as i64)
            } else {
                None
            },
            None => None,
        }
    }
}

/// `true` and `false`.
pub open spec fn parse_bool_text(l: Seq<char>) -> Option<bool> {
    if l == "true"@ {
        Some(true)
    } else if l == "false"@ {
        Some(false)
    } else {
        None
    }
}

/// The end of the run of digits that starts at `i`.
pub open spec fn run_end(s: Seq<char>, i: int) -> int
    decreases s.len() - i,
{
    if 0 <= i < s.len() && is_ascii_digit(s[i]) {
        run_end(s, i + 1)
    } else {
        i
    }
}

/// Whether `s` is a finite decimal number in the syntax `str::parse::<f64>`
/// reads: an optional sign, digits with an optional point (at least one digit
/// in all), and an optional exponent `e`/`E`, optional sign and digits.
pub open spec fn is_decimal_float_text(s: Seq<char>) -> bool {
    let a: int = if s.len() > 0 && (s[0] == '+' || s[0] == '-') {
        1
    } else {
        0
    };
    let b = run_end(s, a);
    let c: int = if b < s.len() && s[b] == '.' {
        b + 1
    } else {
        b
    };
    let d = run_end(s, c);
    let mantissa = b > a || d > c;
    if d == s.len() {
        mantissa
    } else if s[d] == 'e' || s[d] == 'E' {
        let f = d + 1;
        let g: int = if f < s.len() && (s[f] == '+' || s[f] == '-') {
            f + 1
        } else {
            f
        };
        let h = run_end(s, g);
        mantissa && h > g && h == s.len()
    } else {
        false
    }
}

/// The JSON number a literal stands for: an `i64` when it reads as one, else a
/// `u64`, else a decimal float that stays finite as an `f64`, carried as its
/// text in JSON number syntax.
pub open spec fn literal_number(l: Seq<char>) -> Option<Json> {
    match parse_i64_text(l) {
        Some(v) => Some(Json::Number(int_json_number(v as int))),
        None => match parse_u64_text(l) {
            Some(v) => Some(Json::Number(NumberModel::PosInt(v))),
            None => if is_decimal_float_text(l) && !float_text_overflows(l) {
                Some(Json::Number(NumberModel::Float(json_float_text(l))))
            } else {
                None
            },
        },
    }
}

/// The number model of an integer in the `i64` range: non-negative integers
/// are `PosInt`, negative ones `NegInt`.
pub open spec fn int_json_number(v: int) -> NumberModel {
    if v >= 0 {
        NumberModel::PosInt(v as u64)
    } else {
        NumberModel::NegInt(v as i64)
    }
}

proof fn lemma_digits_step(s: Seq<char>, start: int, i: int)
    requires
        0 <= start <= i < s.len(),
    ensures
        digits_value(s.subrange(start, i + 1)) == digits_value(s.subrange(start, i)) * 10
            + digit_value(s[i]),
{
    assert(s.subrange(start, i + 1).drop_last() =~= s.subrange(start, i));
}

proof fn lemma_digits_prefix_le(s: Seq<char>, i: int)
    requires
        0 <= i <= s.len(),
    ensures
        digits_value(s.subrange(0, i)) <= digits_value(s),
    decreases s.len(),
{
    if i < s.len() {
        assert(s.drop_last() =~= s.subrange(0, s.len() - 1));
        assert(s.subrange(0, i) =~= s.drop_last().subrange(0, i));
        lemma_digits_prefix_le(s.drop_last(), i);
    } else {
        assert(s.subrange(0, i) =~= s);
    }
}

/// The value of the digits `chars[start..]`, when they are a non-empty run of
/// digits whose value fits in `u64`.
fn digits_to_u64(chars: &Vec<char>, start: usize) -> (r: Option<u64>)
    requires
        start <= chars@.len(),
    ensures
        r == digits_u64(chars@.subrange(start as int, chars@.len() as int)),
{
    let n = chars.len();
    let ghost b = chars@.subrange(start as int, n as int);
    if start == n {
        return None;
    }
    let mut acc: u64 = 0;
    let mut i: usize = start;
    while i < n
        invariant
            n == chars@.len(),
            start <= i <= n,
            b == chars@.subrange(start as int, n as int),
            acc as nat == digits_value(chars@.subrange(start as int, i as int)),
            all_digits(chars@.subrange(start as int, i as int)),
        decreases n - i,
    {
        let c = chars[i];
        if !ascii_digit(c) {
            assert(b[i - start] == c);
            return None;
        }
        proof {
            lemma_digits_step(chars@, start as int, i as int);
        }
        let d: u64 = (c as u32 - 48) as u64;
        assert(d as nat == digit_value(c));
        match acc.checked_mul(10) {
            Some(m) => match m.checked_add(d) {
                Some(next) => {
                    acc = next;
                },
                None => {
                    proof {
                        assert(chars@.subrange(start as int, i as int + 1) =~= b.subrange(
                            0,
                            i - start + 1,
                        ));
                        lemma_digits_prefix_le(b, i - start + 1);
                    }
                    return None;
                },
            },
            None => {
                proof {
                    assert(chars@.subrange(start as int, i as int + 1) =~= b.subrange(
                        0,
                        i - start + 1,
                    ));
                    lemma_digits_prefix_le(b, i - start + 1);
                }
                return None;
            },
        }
        i = i + 1;
        assert(all_digits(chars@.subrange(start as int, i as int)));
    }
    Some(acc)
}

/// `literal.parse::<u64>().ok()`.
pub fn literal_to_u64(literal: &str) -> (r: Option<u64>)
    ensures
        r == parse_u64_text(literal@),
{
    let chars = chars_of(literal);
    if chars.len() > 0 && chars[0] == '+' {
        assert(chars@.subrange(1, chars@.len() as int) =~= literal@.drop_first());
        digits_to_u64(&chars, 1)
    } else {
        assert(chars@.subrange(0, chars@.len() as int) =~= literal@);
        digits_to_u64(&chars, 0)
    }
}

/// `literal.parse::<i64>().ok()`.
pub fn literal_to_i64(literal: &str) -> (r: Option<i64>)
    ensures
        r == parse_i64_text(literal@),
{
    let chars = chars_of(literal);
    if chars.len() > 0 && chars[0] == '-' {
        assert(chars@.subrange(1, chars@.len() as int) =~= literal@.drop_first());
        match digits_to_u64(&chars, 1) {
            Some(m) => if m <= 0x8000_0000_0000_0000u64 {
                if m == 0x8000_0000_0000_0000u64 {
                    Some(i64::MIN)
                } else {
                    Some(-(m as i64))
                }
            } else {
                None
            },
            None => None,
        }
    } else {
        match literal_to_u64(literal) {
            Some(m) => if m <= 0x7fff_ffff_ffff_ffffu64 {
                Some(m as i64)
            } else {
                None
            },
            None => None,
        }
    }
}

/// `"true"` and `"false"` as booleans.
pub fn literal_to_bool(literal: &str) -> (r: Option<bool>)
    ensures
        r == parse_bool_text(literal@),
{
    if str_eq(literal, "true") {
        proof {
            reveal_strlit("true");
        }
        Some(true)
    } else if str_eq(literal, "false") {
        proof {
            reveal_strlit("true");
            reveal_strlit("false");
        }
        Some(false)
    } else {
        None
    }
}

/// The end of the run of digits in `chars` that starts at `i`.
fn digit_run_end(chars: &Vec<char>, i: usize) -> (r: usize)
    requires
        i <= chars@.len(),
    ensures
        r as int == run_end(chars@, i as int),
        i <= r <= chars@.len(),
{
    let n = chars.len();
    let mut j: usize = i;
    while j < n && ascii_digit(chars[j])
        invariant
            n == chars@.len(),
            i <= j <= n,
            run_end(chars@, j as int) == run_end(chars@, i as int),
        decreases n - j,
    {
        j = j + 1;
    }
    j
}

/// Whether `literal` is a finite decimal number that `str::parse::<f64>` reads.
pub fn decimal_float_text(literal: &str) -> (r: bool)
    ensures
        r == is_decimal_float_text(literal@),
{
    let s = chars_of(literal);
    let n = s.len();
    let a: usize = if n > 0 && (s[0] == '+' || s[0] == '-') {
        1
    } else {
        0
    };
    let b = digit_run_end(&s, a);
    let c: usize = if b < n && s[b] == '.' {
        b + 1
    } else {
        b
    };
    let d = digit_run_end(&s, c);
    let mantissa = b > a || d > c;
    if d == n {
        mantissa
    } else if s[d] == 'e' || s[d] == 'E' {
        let f = d + 1;
        let g: usize = if f < n && (s[f] == '+' || s[f] == '-') {
            f + 1
        } else {
            f
        };
        let h = digit_run_end(&s, g);
        mantissa && h > g && h == n
    } else {
        false
    }
}

/// `t` without its leading zeros.
pub open spec fn skip_leading_zeros(t: Seq<char>) -> Seq<char>
    decreases t.len(),
{
    if t.len() > 0 && t[0] == '0' {
        skip_leading_zeros(t.drop_first())
    } else {
        t
    }
}

/// The length of the optional sign at the start of a number.
pub open spec fn sign_len(s: Seq<char>) -> int {
    if s.len() > 0 && (s[0] == '+' || s[0] == '-') {
        1
    } else {
        0
    }
}

/// The same decimal number in JSON number syntax: no `+` sign, no leading
/// zeros, a `0` before a point with no integer digits and after a point with
/// no fraction digits; the exponent is kept as written.
pub open spec fn json_float_text(s: Seq<char>) -> Seq<char> {
    let a = sign_len(s);
    let b = run_end(s, a);
    let has_point = b < s.len() && s[b] == '.';
    let c = if has_point {
        b + 1
    } else {
        b
    };
    let d = run_end(s, c);
    let sign = if a == 1 && s[0] == '-' {
        seq!['-']
    } else {
        Seq::empty()
    };
    let int_digits = skip_leading_zeros(s.subrange(a, b));
    let int_part = if int_digits.len() == 0 {
        seq!['0']
    } else {
        int_digits
    };
    let frac_part = if has_point {
        seq!['.'] + if d > c {
            s.subrange(c, d)
        } else {
            seq!['0']
        }
    } else {
        Seq::empty()
    };
    sign + int_part + frac_part + s.subrange(d, s.len() as int)
}

proof fn lemma_run_end_bounds(s: Seq<char>, i: int)
    requires
        0 <= i <= s.len(),
    ensures
        i <= run_end(s, i) <= s.len(),
    decreases s.len() - i,
{
    if i < s.len() && is_ascii_digit(s[i]) {
        lemma_run_end_bounds(s, i + 1);
    }
}

/// Appends `s[from..to]` to `out`.
fn push_range(out: &mut Vec<char>, s: &Vec<char>, from: usize, to: usize)
    requires
        from <= to <= s@.len(),
    ensures
        final(out)@ == old(out)@ + s@.subrange(from as int, to as int),
{
    let mut i = from;
    while i < to
        invariant
            from <= i <= to,
            to <= s@.len(),
            out@ == old(out)@ + s@.subrange(from as int, i as int),
        decreases to - i,
    {
        out.push(s[i]);
        i = i + 1;
        assert(s@.subrange(from as int, i as int) =~= s@.subrange(from as int, i - 1).push(
            s@[i - 1],
        ));
    }
}

/// The decimal digits of 2^1024 − 2^970, the least value that rounding to
/// `f64` carries to infinity.
pub open spec fn f64_limit_digits() -> Seq<char> {
    "179769313486231580793728971405303415079934132710037826936173778980444968292764750946649017977587207096330286416692887910946555547851940402630657488671505820681908902000708383676273854845817711531764475730270069855571366959622842914819860834936475292719074168444365510704342711559699508093042880177904174497792"@
}

/// The digit of `x` at position `i`, with zeros past its end.
pub open spec fn padded_digit(x: Seq<char>, i: int) -> char {
    if 0 <= i < x.len() {
        x[i]
    } else {
        '0'
    }
}

/// Whether `0.x` is less than `0.y`, for digit strings `x` and `y`: at the
/// first position where they differ (counting zeros past their ends), `x`
/// has the smaller digit.
pub open spec fn fraction_below(x: Seq<char>, y: Seq<char>) -> bool {
    exists|i: int|
        0 <= i && (i < x.len() || i < y.len()) && #[trigger] padded_digit(x, i) < padded_digit(y, i)
            && forall|
            j: int,
        |
            0 <= j < i ==> #[trigger] padded_digit(x, j) == padded_digit(y, j)
}

/// The end of the integer digits of a decimal float text.
pub open spec fn int_digits_end(s: Seq<char>) -> int {
    run_end(s, sign_len(s))
}

/// The start of the fraction digits of a decimal float text.
pub open spec fn fraction_start(s: Seq<char>) -> int {
    let b = int_digits_end(s);
    if b < s.len() && s[b] == '.' {
        b + 1
    } else {
        b
    }
}

/// The end of the fraction digits of a decimal float text.
pub open spec fn fraction_end(s: Seq<char>) -> int {
    run_end(s, fraction_start(s))
}

/// The digits of a decimal float text, without its point.
pub open spec fn float_mantissa(s: Seq<char>) -> Seq<char> {
    s.subrange(sign_len(s), int_digits_end(s)) + s.subrange(fraction_start(s), fraction_end(s))
}

/// The exponent written in a decimal float text (0 when there is none).
pub open spec fn float_exponent(s: Seq<char>) -> int {
    let d = fraction_end(s);
    if d < s.len() {
        let f = d + 1;
        let g = if f < s.len() && (s[f] == '+' || s[f] == '-') {
            f + 1
        } else {
            f
        };
        let v = digits_value(s.subrange(g, s.len() as int)) as int;
        if f < s.len() && s[f] == '-' {
            -v
        } else {
            v
        }
    } else {
        0
    }
}

/// Whether the value of a decimal float text is at least 2^1024 − 2^970, so
/// that it reads as an infinite `f64`: its significant digits stand `p`
/// places before the point, and `p` is past the limit's 309 places or equal
/// to them with digits that do not stay below the limit's.
pub open spec fn float_text_overflows(s: Seq<char>) -> bool {
    let sig = skip_leading_zeros(float_mantissa(s));
    let p = sig.len() + float_exponent(s) - (fraction_end(s) - fraction_start(s));
    sig.len() > 0 && (p > 309 || (p == 309 && !fraction_below(sig, f64_limit_digits())))
}

proof fn lemma_run_end_digits(s: Seq<char>, i: int)
    requires
        0 <= i <= s.len(),
    ensures
        forall|j: int| i <= j < run_end(s, i) ==> is_ascii_digit(#[trigger] s[j]),
    decreases s.len() - i,
{
    if i < s.len() && is_ascii_digit(s[i]) {
        lemma_run_end_digits(s, i + 1);
    }
}

/// The digit of `v[from..]` at position `i`, with zeros past its end.
fn padded_at(v: &Vec<char>, from: usize, i: usize) -> (r: char)
    requires
        from <= v@.len(),
    ensures
        r == padded_digit(v@.subrange(from as int, v@.len() as int), i as int),
{
    if i < v.len() - from {
        v[from + i]
    } else {
        '0'
    }
}

/// Whether a decimal float text reads as an infinite `f64`.
#[verifier::rlimit(60)]
pub fn float_text_overflows_exec(literal: &str) -> (r: bool)
    requires
        is_decimal_float_text(literal@),
    ensures
        r == float_text_overflows(literal@),
{
    let s = chars_of(literal);
    let ghost t = s@;
    let n = s.len();
    let a: usize = if n > 0 && (s[0] == '+' || s[0] == '-') {
        1
    } else {
        0
    };
    let b = digit_run_end(&s, a);
    let c: usize = if b < n && s[b] == '.' {
        b + 1
    } else {
        b
    };
    let d = digit_run_end(&s, c);
    let mut mant: Vec<char> = Vec::new();
    push_range(&mut mant, &s, a, b);
    push_range(&mut mant, &s, c, d);
    assert(mant@ =~= float_mantissa(t));
    let m = mant.len();
    let mut z: usize = 0;
    assert(mant@.subrange(0, m as int) =~= mant@);
    while z < m && mant[z] == '0'
        invariant
            m == mant@.len(),
            z <= m,
            skip_leading_zeros(mant@) == skip_leading_zeros(mant@.subrange(z as int, m as int)),
        decreases m - z,
    {
        assert(mant@.subrange(z as int, m as int).drop_first() =~= mant@.subrange(z + 1, m as int));
        z = z + 1;
    }
    let ghost sig = mant@.subrange(z as int, m as int);
    assert(skip_leading_zeros(sig) == sig);
    let sig_len = m - z;
    if sig_len == 0 {
        return false;
    }
    let frac_len = d - c;
    // The exponent, exactly while it stays at most 10^20.
    let mut neg = false;
    let mut acc: u128 = 0;
    let mut big = false;
    if d < n {
        let f = d + 1;
        neg = f < n && s[f] == '-';
        let g: usize = if f < n && (s[f] == '+' || s[f] == '-') {
            f + 1
        } else {
            f
        };
        proof {
            lemma_run_end_digits(t, g as int);
        }
        let mut i = g;
        assert(t.subrange(g as int, g as int) =~= Seq::<char>::empty());
        while i < n
            invariant
                n == t.len(),
                s@ == t,
                g <= i <= n,
                run_end(t, g as int) == n,
                forall|j: int| g <= j < n ==> is_ascii_digit(#[trigger] t[j]),
                big ==> digits_value(t.subrange(g as int, i as int)) > 100_000_000_000_000_000_000,
                !big ==> acc == digits_value(t.subrange(g as int, i as int)) && acc
                    <= 100_000_000_000_000_000_000,
            decreases n - i,
        {
            proof {
                lemma_digits_step(t, g as int, i as int);
            }
            let digit = ((s[i] as u32) - ('0' as u32)) as u128;
            if !big {
                let next = acc * 10 + digit;
                if next > 100_000_000_000_000_000_000 {
                    big = true;
                } else {
                    acc = next;
                }
            }
            i = i + 1;
        }
        assert(t.subrange(g as int, n as int) == t.subrange(g as int, i as int));
    }
    proof {
        assert(float_exponent(t) == (if d < n {
            if neg {
                -digits_value(t.subrange(if d + 1 < n && (t[d + 1] == '+' || t[d + 1] == '-') {
                    d + 2
                } else {
                    d + 1
                }, n as int)) as int
            } else {
                digits_value(t.subrange(if d + 1 < n && (t[d + 1] == '+' || t[d + 1] == '-') {
                    d + 2
                } else {
                    d + 1
                }, n as int)) as int
            }
        } else {
            0
        }));
    }
    if big {
        return !neg;
    }
    let e: i128 = if neg {
        -(acc as i128)
    } else {
        acc as i128
    };
    let p: i128 = sig_len as i128 + e - frac_len as i128;
    if p > 309 {
        return true;
    }
    if p < 309 {
        return false;
    }
    let lim = chars_of("179769313486231580793728971405303415079934132710037826936173778980444968292764750946649017977587207096330286416692887910946555547851940402630657488671505820681908902000708383676273854845817711531764475730270069855571366959622842914819860834936475292719074168444365510704342711559699508093042880177904174497792");
    let ghost y = lim@;
    assert(y == f64_limit_digits());
    let total = if sig_len < lim.len() {
        lim.len()
    } else {
        sig_len
    };
    let mut i: usize = 0;
    while i < total && padded_at(&mant, z, i) == padded_at(&lim, 0, i)
        invariant
            m == mant@.len(),
            z <= m,
            sig == mant@.subrange(z as int, m as int),
            lim@ == y,
            y.subrange(0, y.len() as int) == y,
            total == (if sig.len() < y.len() {
                y.len()
            } else {
                sig.len()
            }),
            i <= total,
            forall|j: int| 0 <= j < i ==> #[trigger] padded_digit(sig, j) == padded_digit(y, j),
        decreases total - i,
    {
        i = i + 1;
    }
    assert(lim@.subrange(0, lim@.len() as int) =~= lim@);
    let below = i < total && padded_at(&mant, z, i) < padded_at(&lim, 0, i);
    proof {
        if below {
            assert(padded_digit(sig, i as int) < padded_digit(y, i as int));
            assert(fraction_below(sig, y));
        } else {
            assert forall|k: int|
                0 <= k && (k < sig.len() || k < y.len()) && #[trigger] padded_digit(sig, k) < padded_digit(
                    y,
                    k,
                ) implies !(forall|j: int|
                0 <= j < k ==> #[trigger] padded_digit(sig, j) == padded_digit(y, j)) by {
                if k > i {
                    assert(padded_digit(sig, i as int) != padded_digit(y, i as int));
                }
            }
        }
    }
    !below
}

/// The JSON number text of a decimal float literal.
#[verifier::rlimit(40)]
pub fn json_float_string(literal: &str) -> (r: String)
    ensures
        r@ == json_float_text(literal@),
{
    let s = chars_of(literal);
    let n = s.len();
    let a: usize = if n > 0 && (s[0] == '+' || s[0] == '-') {
        1
    } else {
        0
    };
    let b = digit_run_end(&s, a);
    let has_point = b < n && s[b] == '.';
    let c: usize = if has_point {
        b + 1
    } else {
        b
    };
    let d = digit_run_end(&s, c);
    let ghost t = s@;
    let mut out: Vec<char> = Vec::new();
    if a == 1 && s[0] == '-' {
        out.push('-');
    }
    let ghost sign = out@;
    let mut z = a;
    while z < b && s[z] == '0'
        invariant
            n == t.len(),
            s@ == t,
            a <= z <= b <= n,
            skip_leading_zeros(t.subrange(a as int, b as int)) == skip_leading_zeros(
                t.subrange(z as int, b as int),
            ),
        decreases b - z,
    {
        assert(t.subrange(z as int, b as int).drop_first() =~= t.subrange(z + 1, b as int));
        z = z + 1;
    }
    assert(skip_leading_zeros(t.subrange(z as int, b as int)) == t.subrange(z as int, b as int));
    if z == b {
        out.push('0');
    } else {
        push_range(&mut out, &s, z, b);
    }
    let ghost int_part = out@.subrange(sign.len() as int, out@.len() as int);
    assert(out@ =~= sign + int_part);
    if has_point {
        out.push('.');
        if d > c {
            push_range(&mut out, &s, c, d);
        } else {
            out.push('0');
        }
    }
    let ghost before_exp = out@;
    push_range(&mut out, &s, d, n);
    proof {
        let frac_part = before_exp.subrange((sign.len() + int_part.len()) as int, before_exp.len() as int);
        assert(before_exp =~= sign + int_part + frac_part);
        if has_point {
            if d > c {
                assert(frac_part =~= seq!['.'] + t.subrange(c as int, d as int));
            } else {
                assert(frac_part =~= seq!['.'] + seq!['0']);
            }
        } else {
            assert(frac_part =~= Seq::<char>::empty());
        }
        if a == 1 && s[0] == '-' {
            assert(sign =~= seq!['-']);
        } else {
            assert(sign =~= Seq::<char>::empty());
        }
        if z == b {
            assert(int_part =~= seq!['0']);
        } else {
            assert(int_part =~= t.subrange(z as int, b as int));
        }
    }
    string_from_chars(&out)
}

/// The JSON number a literal stands for, when it reads as an `i64`, a `u64`
/// or a finite decimal float.
pub fn literal_to_number_value(literal: &str) -> (r: Option<JsonValue>)
    ensures
        match r {
            Some(v) => literal_number(literal@) == Some(v@),
            None => literal_number(literal@) is None,
        },
{
    match literal_to_i64(literal) {
        Some(v) => {
            if v >= 0 {
                Some(JsonValue::Number(JsonNumber::PosInt(v as u64)))
            } else {
                Some(JsonValue::Number(JsonNumber::NegInt(v)))
            }
        },
        None => match literal_to_u64(literal) {
            Some(v) => Some(JsonValue::Number(JsonNumber::PosInt(v))),
            None => {
                if decimal_float_text(literal) && !float_text_overflows_exec(literal) {
                    Some(JsonValue::Number(JsonNumber::Float(json_float_string(literal))))
                } else {
                    None
                }
            },
        },
    }
}

} // verus!
