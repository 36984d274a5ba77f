//! Reading a size such as `512`, `1.5G` or `40M` out of a word of tool
//! output.
//!
//! A word is first trimmed of white space. A word ending in `G`, `M` or `K`
//! (either case) is a scaled size: the text before the unit must be a
//! floating-point literal, and its value times 1024, 1024² or 1024³ is the
//! size. Any other word must be an unsigned decimal integer that fits in 64
//! bits. This module decides which of these a word is, exactly; the value of
//! a scaled size is floating-point arithmetic and is computed by the caller.
use vstd::prelude::*;
use crate::text::{chars_of, decimal, digit_char};

verus! {

/// Unicode `White_Space` characters, the ones that `str::trim` removes.
pub open spec fn is_white_space(c: char) -> bool {
    ||| ('\u{9}' <= c && c <= '\u{d}')
    ||| c == ' '
    ||| c == '\u{85}'
    ||| c == '\u{a0}'
    ||| c == '\u{1680}'
    ||| ('\u{2000}' <= c && c <= '\u{200a}')
    ||| c == '\u{2028}'
    ||| c == '\u{2029}'
    ||| c == '\u{202f}'
    ||| c == '\u{205f}'
    ||| c == '\u{3000}'
}

/// Number of white-space characters at the start of `s`.
pub open spec fn leading_ws(s: Seq<char>) -> nat
    decreases s.len(),
{
    if s.len() > 0 && is_white_space(s[0]) {
        1 + leading_ws(s.skip(1))
    } else {
        0
    }
}

/// Number of white-space characters at the end of `s`.
pub open spec fn trailing_ws(s: Seq<char>) -> nat
    decreases s.len(),
{
    if s.len() > 0 && is_white_space(s.last()) {
        1 + trailing_ws(s.drop_last())
    } else {
        0
    }
}

/// `s` without leading and trailing white space.
pub open spec fn trimmed(s: Seq<char>) -> Seq<char> {
    if leading_ws(s) == s.len() {
        Seq::empty()
    } else {
        s.subrange(leading_ws(s) as int, s.len() - trailing_ws(s))
    }
}

/// An ASCII decimal digit.
pub open spec fn is_digit(c: char) -> bool {
    '0' <= c && c <= '9'
}

/// Every character of `s` is a decimal digit.
pub open spec fn digits_only(s: Seq<char>) -> bool {
    forall|i: int| 0 <= i < s.len() ==> is_digit(#[trigger] s[i])
}

/// The value of a digit.
pub open spec fn digit_value(c: char) -> nat {
    (c as int - '0' as int) as nat
}

/// The value of a string of decimal digits, most significant first.
pub open spec fn digits_value(s: Seq<char>) -> nat
    decreases s.len(),
{
    if s.len() == 0 {
        0
    } else {
        digits_value(s.drop_last()) * 10 + digit_value(s.last())
    }
}

/// `s` without one leading `+` or `-`.
pub open spec fn unsigned_part(s: Seq<char>) -> Seq<char> {
    if s.len() > 0 && (s[0] == '+' || s[0] == '-') {
        s.skip(1)
    } else {
        s
    }
}

/// What parsing `s` as a `u64` gives: an optional `+`, then one or more
/// digits whose value fits in 64 bits.
pub open spec fn u64_of_text(s: Seq<char>) -> Option<u64> {
    let d = if s.len() > 0 && s[0] == '+' { s.skip(1) } else { s };
    if d.len() > 0 && digits_only(d) && digits_value(d) <= u64::MAX {
        Some(digits_value(d) as u64)
    } else {
        None
    }
}

/// `c` equals the lower-case ASCII letter `w`, ignoring case.
pub open spec fn same_letter(c: char, w: char) -> bool {
    c == w || c as u32 + 32 == w as u32
}

/// `s` spells the lower-case word `w`, ignoring ASCII case.
pub open spec fn spells(s: Seq<char>, w: Seq<char>) -> bool {
    s.len() == w.len() && forall|i: int| 0 <= i < s.len() ==> same_letter(#[trigger] s[i], w[i])
}

/// Digits, optionally with one decimal point, with at least one digit.
pub open spec fn decimal_digits(m: Seq<char>) -> bool {
    ||| (m.len() > 0 && digits_only(m))
    ||| exists|k: int|
        0 <= k < m.len() && m[k] == '.' && m.len() > 1
            && digits_only(m.take(k)) && #[trigger] digits_only(m.skip(k + 1))
}

/// An exponent after the `e`: an optional sign and one or more digits.
pub open spec fn exponent_digits(e: Seq<char>) -> bool {
    unsigned_part(e).len() > 0 && digits_only(unsigned_part(e))
}

/// The exponent marker `e`, in either case.
pub open spec fn is_exponent_marker(c: char) -> bool {
    c == 'e' || c == 'E'
}

/// A decimal number with an optional exponent.
pub open spec fn decimal_number(n: Seq<char>) -> bool {
    ||| decimal_digits(n)
    ||| exists|j: int|
        0 <= j < n.len() && is_exponent_marker(n[j]) && decimal_digits(n.take(j))
            && #[trigger] exponent_digits(n.skip(j + 1))
}

/// The grammar of floating-point literals that `f64::from_str` accepts:
/// an optional sign, then `inf`, `infinity`, `nan` (any case) or a decimal
/// number with an optional exponent.
pub open spec fn float_literal(s: Seq<char>) -> bool {
    let u = unsigned_part(s);
    ||| spells(u, "inf"@)
    ||| spells(u, "infinity"@)
    ||| spells(u, "nan"@)
    ||| decimal_number(u)
}

/// What a word is, as a size.
pub enum SizeClass {
    /// A plain number of bytes.
    Bytes(u64),
    /// A floating-point literal, to be multiplied by 1024 `power` times.
    Scaled(Seq<char>, u32),
    /// Not a size.
    Invalid,
}

/// The power of 1024 that a unit letter stands for (0 for no unit).
pub open spec fn unit_power(c: char) -> u32 {
    if c == 'G' || c == 'g' {
        3
    } else if c == 'M' || c == 'm' {
        2
    } else if c == 'K' || c == 'k' {
        1
    } else {
        0
    }
}

/// How a word reads as a size.
pub open spec fn size_class(s: Seq<char>) -> SizeClass {
    let t = trimmed(s);
    if t.len() > 0 && unit_power(t.last()) > 0 {
        if float_literal(t.drop_last()) {
            SizeClass::Scaled(t.drop_last(), unit_power(t.last()))
        } else {
            SizeClass::Invalid
        }
    } else {
        match u64_of_text(t) {
            Some(n) => SizeClass::Bytes(n),
            None => SizeClass::Invalid,
        }
    }
}

/// A word read as a size.
pub enum SizeToken {
    /// A plain number of bytes.
    Bytes(u64),
    /// A floating-point literal `number`; the size is its value multiplied
    /// by 1024, `power` times, truncated to an integer.
    Scaled { number: String, power: u32 },
    /// Not a size.
    NotASize,
}

impl SizeToken {
    /// The class that this token stands for.
    pub open spec fn class(&self) -> SizeClass {
        match self {
            SizeToken::Bytes(n) => SizeClass::Bytes(*n),
            SizeToken::Scaled { number, power } => SizeClass::Scaled(number@, *power),
            SizeToken::NotASize => SizeClass::Invalid,
        }
    }

    /// Whether the word is a size at all.
    pub fn is_size(&self) -> (b: bool)
        ensures
            b == !(self.class() is Invalid),
    {
        match self {
            SizeToken::NotASize => false,
            _ => true,
        }
    }
}

/// Whether `c` is a white-space character.
pub fn white_space(c: char) -> (b: bool)
    ensures
        b == is_white_space(c),
{
    ('\u{9}' <= c && c <= '\u{d}') || c == ' ' || c == '\u{85}' || c == '\u{a0}' || c == '\u{1680}'
        || ('\u{2000}' <= c && c <= '\u{200a}') || c == '\u{2028}' || c == '\u{2029}'
        || c == '\u{202f}' || c == '\u{205f}' || c == '\u{3000}'
}

proof fn lemma_leading_ws_step(s: Seq<char>, i: int)
    requires
        0 <= i < s.len(),
        forall|k: int| 0 <= k < i ==> is_white_space(#[trigger] s[k]),
    ensures
        leading_ws(s) >= i,
        is_white_space(s[i]) ==> leading_ws(s) >= i + 1,
        !is_white_space(s[i]) ==> leading_ws(s) == i,
    decreases i,
{
    if i > 0 {
        assert forall|k: int| 0 <= k < i - 1 implies is_white_space(#[trigger] s.skip(1)[k]) by {
            assert(s.skip(1)[k] == s[k + 1]);
        }
        assert(s.skip(1)[i - 1] == s[i]);
        lemma_leading_ws_step(s.skip(1), i - 1);
    }
}

proof fn lemma_leading_ws_all(s: Seq<char>)
    requires
        forall|k: int| 0 <= k < s.len() ==> is_white_space(#[trigger] s[k]),
    ensures
        leading_ws(s) == s.len(),
    decreases s.len(),
{
    if s.len() > 0 {
        assert forall|k: int| 0 <= k < s.len() - 1 implies is_white_space(#[trigger] s.skip(1)[k]) by {
            assert(s.skip(1)[k] == s[k + 1]);
        }
        lemma_leading_ws_all(s.skip(1));
    }
}

proof fn lemma_leading_ws_bound(s: Seq<char>)
    ensures
        leading_ws(s) <= s.len(),
    decreases s.len(),
{
    if s.len() > 0 && is_white_space(s[0]) {
        lemma_leading_ws_bound(s.skip(1));
    }
}

proof fn lemma_trailing_ws_step(s: Seq<char>, i: int)
    requires
        0 <= i < s.len(),
        forall|k: int| 0 <= k < i ==> is_white_space(#[trigger] s[s.len() - 1 - k]),
    ensures
        is_white_space(s[s.len() - 1 - i]) ==> trailing_ws(s) >= i + 1,
        !is_white_space(s[s.len() - 1 - i]) ==> trailing_ws(s) == i,
    decreases i,
{
    if i > 0 {
        let d = s.drop_last();
        assert forall|k: int| 0 <= k < i - 1 implies is_white_space(#[trigger] d[d.len() - 1 - k]) by {
            assert(d[d.len() - 1 - k] == s[s.len() - 1 - (k + 1)]);
            assert(is_white_space(s[s.len() - 1 - (k + 1)]));
        }
        assert(d[d.len() - 1 - (i - 1)] == s[s.len() - 1 - i]);
        assert(is_white_space(s[s.len() - 1 - 0]));
        lemma_trailing_ws_step(d, i - 1);
    }
}

/// The index range of `s` that remains after trimming white space.
fn trim_bounds(s: &Vec<char>) -> (r: (usize, usize))
    ensures
        r.0 <= r.1 <= s@.len(),
        s@.subrange(r.0 as int, r.1 as int) == trimmed(s@),
{
    let n = s.len();
    let mut a: usize = 0;
    while a < n && white_space(s[a])
        invariant
            n == s@.len(),
            a <= n,
            forall|k: int| 0 <= k < a ==> is_white_space(#[trigger] s@[k]),
        decreases n - a,
    {
        a = a + 1;
    }
    proof {
        lemma_leading_ws_bound(s@);
        if a < n {
            lemma_leading_ws_step(s@, a as int);
        } else {
            lemma_leading_ws_all(s@);
        }
    }
    if a == n {
        return (n, n);
    }
    let mut b: usize = 0;
    while b < n - a && white_space(s[n - 1 - b])
        invariant
            n == s@.len(),
            a < n,
            b <= n - a,
            !is_white_space(s@[a as int]),
            forall|k: int| 0 <= k < b ==> is_white_space(#[trigger] s@[s@.len() - 1 - k]),
        decreases n - a - b,
    {
        b = b + 1;
    }
    proof {
        if b == n - a {
            assert(is_white_space(s@[s@.len() - 1 - (n - a - 1)]));
            assert(s@.len() - 1 - (n - a - 1) == a);
        }
        lemma_trailing_ws_step(s@, b as int);
    }
    (a, n - b)
}

/// Whether `s[from..to]` holds only digits.
fn digits_between(s: &Vec<char>, from: usize, to: usize) -> (b: bool)
    requires
        from <= to <= s@.len(),
    ensures
        b == digits_only(s@.subrange(from as int, to as int)),
{
    let mut i = from;
    while i < to
        invariant
            from <= i <= to,
            to <= s@.len(),
            forall|k: int| from <= k < i ==> is_digit(#[trigger] s@[k]),
        decreases to - i,
    {
        if !('0' <= s[i] && s[i] <= '9') {
            assert(!is_digit(s@.subrange(from as int, to as int)[i - from]));
            return false;
        }
        i = i + 1;
    }
    assert forall|k: int| 0 <= k < to - from implies is_digit(#[trigger] s@.subrange(from as int, to as int)[k]) by {
        assert(s@.subrange(from as int, to as int)[k] == s@[from + k]);
    }
    true
}

/// Whether `s[from..to]` spells the lower-case word `w`, ignoring case.
fn spells_between(s: &Vec<char>, from: usize, to: usize, w: &str) -> (b: bool)
    requires
        from <= to <= s@.len(),
    ensures
        b == spells(s@.subrange(from as int, to as int), w@),
{
    let wc = chars_of(w);
    if to - from != wc.len() {
        return false;
    }
    let mut i: usize = 0;
    while i < wc.len()
        invariant
            to - from == wc@.len(),
            wc@ == w@,
            from <= to <= s@.len(),
            i <= wc@.len(),
            forall|k: int| 0 <= k < i ==> same_letter(#[trigger] s@[from + k], wc@[k]),
        decreases wc.len() - i,
    {
        let c = s[from + i];
        let l = wc[i];
        if !(c == l || ((l as u32) >= 32 && (c as u32) == (l as u32) - 32)) {
            assert(!same_letter(s@.subrange(from as int, to as int)[i as int], w@[i as int]));
            return false;
        }
        i = i + 1;
    }
    assert forall|k: int| 0 <= k < to - from implies same_letter(
        #[trigger] s@.subrange(from as int, to as int)[k],
        w@[k],
    ) by {
        assert(s@.subrange(from as int, to as int)[k] == s@[from + k]);
    }
    true
}

/// Whether `s[from..to]` is digits with at most one decimal point and at
/// least one digit.
fn decimal_digits_between(s: &Vec<char>, from: usize, to: usize) -> (b: bool)
    requires
        from <= to <= s@.len(),
    ensures
        b == decimal_digits(s@.subrange(from as int, to as int)),
{
    let ghost m = s@.subrange(from as int, to as int);
    let mut i = from;
    while i < to && s[i] != '.'
        invariant
            from <= i <= to,
            to <= s@.len(),
            forall|k: int| from <= k < i ==> s@[k] != '.',
        decreases to - i,
    {
        i = i + 1;
    }
    if i == to {
        let b = to > from && digits_between(s, from, to);
        proof {
            assert forall|k: int| 0 <= k < m.len() && m[k] == '.' implies false by {
                assert(m[k] == s@[from + k]);
            }
        }
        return b;
    }
    let left = digits_between(s, from, i);
    let right = digits_between(s, i + 1, to);
    let b = left && right && to - from > 1;
    proof {
        let k0 = i - from;
        assert(m[k0] == '.');
        assert(m.take(k0) =~= s@.subrange(from as int, i as int));
        assert(m.skip(k0 + 1) =~= s@.subrange(i + 1, to as int));
        if b {
            assert(digits_only(m.take(k0)));
            assert(digits_only(m.skip(k0 + 1)));
        }
        if decimal_digits(m) && !b {
            if m.len() > 0 && digits_only(m) {
                assert(is_digit(m[k0]));
            } else {
                let k = choose|k: int|
                    0 <= k < m.len() && m[k] == '.' && m.len() > 1 && digits_only(m.take(k))
                        && #[trigger] digits_only(m.skip(k + 1));
                if k < k0 {
                    assert(m.skip(k + 1)[k0 - k - 1] == m[k0]);
                    assert(is_digit(m.skip(k + 1)[k0 - k - 1]));
                } else if k > k0 {
                    assert(m.take(k)[k0] == m[k0]);
                    assert(is_digit(m.take(k)[k0]));
                }
            }
        }
    }
    b
}

/// Whether `s[from..to]` is a decimal number with an optional exponent.
fn decimal_number_between(s: &Vec<char>, from: usize, to: usize) -> (b: bool)
    requires
        from <= to <= s@.len(),
    ensures
        b == decimal_number(s@.subrange(from as int, to as int)),
{
    let ghost n = s@.subrange(from as int, to as int);
    let mut j = from;
    while j < to && !(s[j] == 'e' || s[j] == 'E')
        invariant
            from <= j <= to,
            to <= s@.len(),
            forall|k: int| from <= k < j ==> !is_exponent_marker(#[trigger] s@[k]),
        decreases to - j,
    {
        j = j + 1;
    }
    if j == to {
        let b = decimal_digits_between(s, from, to);
        proof {
            assert forall|k: int| 0 <= k < n.len() implies !is_exponent_marker(#[trigger] n[k]) by {
                assert(n[k] == s@[from + k]);
            }
        }
        return b;
    }
    let whole = decimal_digits_between(s, from, to);
    let mantissa = decimal_digits_between(s, from, j);
    let exp_start = if j + 1 < to && (s[j + 1] == '+' || s[j + 1] == '-') { j + 2 } else { j + 1 };
    let exp = exp_start < to && digits_between(s, exp_start, to);
    let b = whole || (mantissa && exp);
    proof {
        let j0 = j - from;
        assert(is_exponent_marker(n[j0]));
        assert(n.take(j0) =~= s@.subrange(from as int, j as int));
        let e = n.skip(j0 + 1);
        assert(e =~= s@.subrange(j + 1, to as int));
        assert(unsigned_part(e) =~= s@.subrange(exp_start as int, to as int));
        assert(exp == exponent_digits(e));
        if decimal_digits(n) {
            assert(whole);
        }
        if !whole && decimal_number(n) && !(mantissa && exp) {
            let k = choose|k: int|
                0 <= k < n.len() && is_exponent_marker(n[k]) && decimal_digits(n.take(k))
                    && #[trigger] exponent_digits(n.skip(k + 1));
            if k < j0 {
                assert(n[k] == s@[from + k]);
            } else if k > j0 {
                let t = n.take(k);
                assert(t[j0] == n[j0]);
                assert(is_exponent_marker(t[j0]));
                if t.len() > 0 && digits_only(t) {
                    assert(is_digit(t[j0]));
                } else {
                    let q = choose|q: int|
                        0 <= q < t.len() && t[q] == '.' && t.len() > 1 && digits_only(t.take(q))
                            && #[trigger] digits_only(t.skip(q + 1));
                    if j0 < q {
                        assert(t.take(q)[j0] == t[j0]);
                        assert(is_digit(t.take(q)[j0]));
                    } else if j0 > q {
                        assert(t.skip(q + 1)[j0 - q - 1] == t[j0]);
                        assert(is_digit(t.skip(q + 1)[j0 - q - 1]));
                    }
                }
            }
        }
    }
    b
}

/// Whether `s[from..to]` is a floating-point literal as `f64::from_str`
/// accepts it.
fn float_literal_between(s: &Vec<char>, from: usize, to: usize) -> (b: bool)
    requires
        from <= to <= s@.len(),
    ensures
        b == float_literal(s@.subrange(from as int, to as int)),
{
    let start = if from < to && (s[from] == '+' || s[from] == '-') { from + 1 } else { from };
    proof {
        assert(unsigned_part(s@.subrange(from as int, to as int)) =~= s@.subrange(start as int, to as int));
        reveal_strlit("inf");
        reveal_strlit("infinity");
        reveal_strlit("nan");
    }
    spells_between(s, start, to, "inf") || spells_between(s, start, to, "infinity")
        || spells_between(s, start, to, "nan") || decimal_number_between(s, start, to)
}

proof fn lemma_digits_value_step(s: Seq<char>, i: int)
    requires
        0 <= i < s.len(),
    ensures
        digits_value(s.take(i + 1)) == digits_value(s.take(i)) * 10 + digit_value(s[i]),
{
    assert(s.take(i + 1).drop_last() =~= s.take(i));
}

proof fn lemma_digits_value_prefix(s: Seq<char>, i: int)
    requires
        0 <= i <= s.len(),
    ensures
        digits_value(s.take(i)) <= digits_value(s),
    decreases s.len() - i,
{
    if i < s.len() {
        lemma_digits_value_step(s, i);
        lemma_digits_value_prefix(s, i + 1);
    } else {
        assert(s.take(i) =~= s);
    }
}

/// The value of the digits `s[from..to]`, if it fits in 64 bits.
fn value_between(s: &Vec<char>, from: usize, to: usize) -> (r: Option<u64>)
    requires
        from <= to <= s@.len(),
        digits_only(s@.subrange(from as int, to as int)),
    ensures
        r == (if digits_value(s@.subrange(from as int, to as int)) <= u64::MAX {
            Some(digits_value(s@.subrange(from as int, to as int)) as u64)
        } else {
            None::<u64>
        }),
{
    let ghost d = s@.subrange(from as int, to as int);
    let mut acc: u64 = 0;
    let mut i = from;
    assert(d.take(0) =~= Seq::<char>::empty());
    while i < to
        invariant
            from <= i <= to,
            to <= s@.len(),
            d == s@.subrange(from as int, to as int),
            digits_only(d),
            acc == digits_value(d.take(i - from)),
        decreases to - i,
    {
        proof {
            lemma_digits_value_step(d, i - from);
            assert(d[i - from] == s@[i as int]);
            assert(is_digit(d[i - from]));
        }
        let digit = (s[i] as u32 - '0' as u32) as u64;
        match acc.checked_mul(10) {
            Some(t) => match t.checked_add(digit) {
                Some(u) => {
                    acc = u;
                }
                None => {
                    proof {
                        lemma_digits_value_prefix(d, i - from + 1);
                    }
                    return None;
                }
            },
            None => {
                proof {
                    lemma_digits_value_prefix(d, i - from + 1);
                }
                return None;
            }
        }
        i = i + 1;
    }
    assert(d.take(to - from) =~= d);
    Some(acc)
}

/// Reads a word as a size: a plain byte count, a scaled floating-point
/// literal, or not a size.
pub fn parse_size(word: &str) -> (tok: SizeToken)
    ensures
        tok.class() == size_class(word@),
{
    let s = chars_of(word);
    let (a, b) = trim_bounds(&s);
    let ghost t = s@.subrange(a as int, b as int);
    if b > a {
        let last = s[b - 1];
        let power: u32 = if last == 'G' || last == 'g' {
            3
        } else if last == 'M' || last == 'm' {
            2
        } else if last == 'K' || last == 'k' {
            1
        } else {
            0
        };
        assert(t.last() == last);
        if power > 0 {
            assert(t.drop_last() =~= s@.subrange(a as int, b - 1));
            if float_literal_between(&s, a, b - 1) {
                let number = String::from_str(word.substring_char(a, b - 1));
                return SizeToken::Scaled { number, power };
            } else {
                return SizeToken::NotASize;
            }
        }
    }
    let start = if b > a && s[a] == '+' { a + 1 } else { a };
    proof {
        let dd = if t.len() > 0 && t[0] == '+' { t.skip(1) } else { t };
        assert(dd =~= s@.subrange(start as int, b as int));
    }
    if start < b && digits_between(&s, start, b) {
        match value_between(&s, start, b) {
            Some(n) => SizeToken::Bytes(n),
            None => SizeToken::NotASize,
        }
    } else {
        SizeToken::NotASize
    }
}

/// The index of the first word that reads as a size, if any.
pub fn first_size_index(words: &Vec<String>) -> (r: Option<usize>)
    ensures
        match r {
            Some(i) => i < words@.len() && !(size_class(words@[i as int]@) is Invalid)
                && forall|k: int| 0 <= k < i ==> #[trigger] size_class(words@[k]@) is Invalid,
            None => forall|k: int| 0 <= k < words@.len() ==> #[trigger] size_class(words@[k]@) is Invalid,
        },
{
    let n = words.len();
    let mut i: usize = 0;
    while i < n
        invariant
            n == words@.len(),
            i <= n,
            forall|k: int| 0 <= k < i ==> #[trigger] size_class(words@[k]@) is Invalid,
        decreases n - i,
    {
        let tok = parse_size(words[i].as_str());
        if tok.is_size() {
            return Some(i);
        }
        i = i + 1;
    }
    None
}

proof fn lemma_decimal_shape(n: nat)
    ensures
        decimal(n).len() > 0,
        digits_only(decimal(n)),
        digits_value(decimal(n)) == n,
    decreases n,
{
    if n < 10 {
        let d = decimal(n);
        assert(digit_value(digit_char(n)) == n);
        assert(d.drop_last() =~= Seq::<char>::empty());
        assert(digits_value(Seq::<char>::empty()) == 0);
        assert(digits_value(d) == digits_value(d.drop_last()) * 10 + digit_value(d.last()));
    }
    if n >= 10 {
        lemma_decimal_shape(n / 10);
        let d = decimal(n);
        assert(d.drop_last() =~= decimal(n / 10));
        assert(d.last() == digit_char(n % 10));
        assert(digit_value(digit_char(n % 10)) == n % 10);
        assert(digits_value(d) == digits_value(decimal(n / 10)) * 10 + digit_value(d.last()));
        assert((n / 10) * 10 + n % 10 == n) by (nonlinear_arith);
        assert forall|i: int| 0 <= i < d.len() implies is_digit(#[trigger] d[i]) by {
            if i < d.len() - 1 {
                assert(d[i] == decimal(n / 10)[i]);
            }
        }
    }
}

/// A number written in decimal reads back as that number of bytes.
pub proof fn law_decimal_reads_back(n: u64)
    ensures
        size_class(decimal(n as nat)) == SizeClass::Bytes(n),
{
    let d = decimal(n as nat);
    lemma_decimal_shape(n as nat);
    assert(!is_white_space(d[0]));
    assert(!is_white_space(d.last()));
    assert(leading_ws(d) == 0);
    assert(trailing_ws(d) == 0);
    assert(trimmed(d) =~= d);
    assert(is_digit(d.last()));
    assert(is_digit(d[0]));
}

/// Every word that reads as a size ends, once trimmed, in a digit or a
/// unit letter.
pub proof fn law_size_words_end_in_digit_or_unit(word: Seq<char>)
    requires
        !(size_class(word) is Invalid),
    ensures
        trimmed(word).len() > 0,
        is_digit(trimmed(word).last()) || unit_power(trimmed(word).last()) > 0,
{
    let t = trimmed(word);
    if !(t.len() > 0 && unit_power(t.last()) > 0) {
        let d = if t.len() > 0 && t[0] == '+' { t.skip(1) } else { t };
        assert(d.len() > 0 && digits_only(d));
        assert(d.last() == t.last());
        assert(is_digit(d[d.len() - 1]));
    }
}

} // verus!
