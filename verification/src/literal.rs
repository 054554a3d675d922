//! Numeric text: the grammar `f64::from_str` accepts, decimal integers read
//! from text, and integers written out in decimal.
use vstd::prelude::*;

use crate::text::{chars_of, find_char};

verus! {

/// An ASCII digit.
pub open spec fn is_digit(c: char) -> bool {
    48 <= (c as u32) <= 57
}

/// The value of digit `c`.
pub open spec fn digit_value(c: char) -> int {
    (c as u32) - 48
}

/// Nothing but ASCII digits.
pub open spec fn all_digits(s: Seq<char>) -> bool {
    forall|i: int| 0 <= i < s.len() ==> is_digit(#[trigger] s[i])
}

/// A sign character.
pub open spec fn is_sign(c: char) -> bool {
    c == '+' || c == '-'
}

/// `s` without one leading sign.
pub open spec fn unsigned_part(s: Seq<char>) -> Seq<char> {
    if s.len() > 0 && is_sign(s[0]) {
        s.drop_first()
    } else {
        s
    }
}

/// `c` is the lower-case letter `w` in either case.
pub open spec fn same_letter(c: char, w: char) -> bool {
    c == w || (c as u32) + 32 == (w as u32)
}

/// `s` spells the lower-case word `w`, ignoring case.
pub open spec fn spells(s: Seq<char>, w: Seq<char>) -> bool {
    s.len() == w.len() && forall|i: int| 0 <= i < s.len() ==> same_letter(#[trigger] s[i], w[i])
}

/// The index of the first `e` or `E` in `s`, or `s.len()`.
pub open spec fn find_exp(s: Seq<char>) -> int
    decreases s.len(),
{
    if s.len() == 0 {
        0
    } else if s[0] == 'e' || s[0] == 'E' {
        0
    } else {
        1 + find_exp(s.drop_first())
    }
}

/// Digits with at most one decimal point, and at least one digit.
pub open spec fn is_mantissa(m: Seq<char>) -> bool {
    let d = find_char(m, '.');
    if d >= m.len() {
        m.len() > 0 && all_digits(m)
    } else {
        all_digits(m.take(d)) && all_digits(m.skip(d + 1)) && m.len() > 1
    }
}

/// A decimal number: a mantissa, then optionally `e`, a sign and digits.
pub open spec fn is_decimal_number(s: Seq<char>) -> bool {
    let e = find_exp(s);
    is_mantissa(s.take(e)) && (e >= s.len() || {
        let x = unsigned_part(s.skip(e + 1));
        x.len() > 0 && all_digits(x)
    })
}

/// The strings `f64::from_str` accepts: an optional sign, then `inf`,
/// `infinity`, `nan` (in any case) or a decimal number.
pub open spec fn is_float_literal(s: Seq<char>) -> bool {
    let b = unsigned_part(s);
    ||| spells(b, seq!['i', 'n', 'f'])
    ||| spells(b, seq!['i', 'n', 'f', 'i', 'n', 'i', 't', 'y'])
    ||| spells(b, seq!['n', 'a', 'n'])
    ||| is_decimal_number(b)
}

proof fn lemma_find_exp_is(s: Seq<char>, j: int)
    requires
        0 <= j <= s.len(),
        j < s.len() ==> (s[j] == 'e' || s[j] == 'E'),
        forall|k: int| 0 <= k < j ==> s[k] != 'e' && s[k] != 'E',
    ensures
        find_exp(s) == j,
    decreases s.len(),
{
    if s.len() > 0 && j > 0 {
        assert forall|k: int| 0 <= k < j - 1 implies s.drop_first()[k] != 'e' && s.drop_first()[k]
            != 'E' by {
            assert(s.drop_first()[k] == s[k + 1]);
        }
        lemma_find_exp_is(s.drop_first(), j - 1);
    }
}

/// Whether `v[lo..hi]` is all digits.
fn digits_in(v: &Vec<char>, lo: usize, hi: usize) -> (r: bool)
    requires
        lo <= hi <= v.len(),
    ensures
        r == all_digits(v@.subrange(lo as int, hi as int)),
{
    let mut i = lo;
    while i < hi
        invariant
            lo <= i <= hi <= v.len(),
            forall|k: int| lo <= k < i ==> is_digit(v@[k]),
        decreases hi - i,
    {
        let u = v[i] as u32;
        if !(48 <= u && u <= 57) {
            assert(v@.subrange(lo as int, hi as int)[i - lo] == v@[i as int]);
            return false;
        }
        i = i + 1;
    }
    assert forall|k: int| 0 <= k < hi - lo implies is_digit(
        #[trigger] v@.subrange(lo as int, hi as int)[k],
    ) by {
        assert(v@.subrange(lo as int, hi as int)[k] == v@[lo + k]);
    }
    true
}

/// Whether `v[lo..hi]` spells `w` ignoring case.
fn spells_in(v: &Vec<char>, lo: usize, hi: usize, w: &Vec<char>) -> (r: bool)
    requires
        lo <= hi <= v.len(),
    ensures
        r == spells(v@.subrange(lo as int, hi as int), w@),
{
    let ghost s = v@.subrange(lo as int, hi as int);
    if hi - lo != w.len() {
        return false;
    }
    let mut i: usize = 0;
    while i < w.len()
        invariant
            lo <= hi <= v.len(),
            hi - lo == w.len(),
            i <= w.len(),
            s == v@.subrange(lo as int, hi as int),
            forall|k: int| 0 <= k < i ==> same_letter(#[trigger] s[k], w@[k]),
        decreases w.len() - i,
    {
        let c = v[lo + i];
        let x = w[i];
        assert(s[i as int] == c);
        if !(c == x || ((x as u32) >= 32 && (c as u32) == (x as u32) - 32)) {
            return false;
        }
        i = i + 1;
    }
    true
}

/// The first `e` or `E` in `v[lo..hi]`, counted from `lo`.
fn find_exp_in(v: &Vec<char>, lo: usize, hi: usize) -> (r: usize)
    requires
        lo <= hi <= v.len(),
    ensures
        r == find_exp(v@.subrange(lo as int, hi as int)),
        r <= hi - lo,
{
    let ghost s = v@.subrange(lo as int, hi as int);
    let mut i = lo;
    while i < hi && v[i] != 'e' && v[i] != 'E'
        invariant
            lo <= i <= hi <= v.len(),
            forall|k: int| lo <= k < i ==> v@[k] != 'e' && v@[k] != 'E',
        decreases hi - i,
    {
        i = i + 1;
    }
    proof {
        assert forall|k: int| 0 <= k < i - lo implies s[k] != 'e' && s[k] != 'E' by {
            assert(s[k] == v@[lo + k]);
        }
        if i < hi {
            assert(s[i - lo] == v@[i as int]);
        }
        lemma_find_exp_is(s, i - lo);
    }
    i - lo
}

/// Whether `v[lo..hi]` is a mantissa.
fn mantissa_in(v: &Vec<char>, lo: usize, hi: usize) -> (r: bool)
    requires
        lo <= hi <= v.len(),
    ensures
        r == is_mantissa(v@.subrange(lo as int, hi as int)),
{
    let ghost m = v@.subrange(lo as int, hi as int);
    let d = crate::text::find_char_in(v, lo, hi, '.');
    if d == hi - lo {
        hi > lo && digits_in(v, lo, hi)
    } else {
        proof {
            assert(m.take(d as int) =~= v@.subrange(lo as int, lo + d));
            assert(m.skip(d + 1) =~= v@.subrange(lo + d + 1, hi as int));
        }
        digits_in(v, lo, lo + d) && digits_in(v, lo + d + 1, hi) && hi - lo > 1
    }
}

/// Whether `v[lo..hi]` is a decimal number.
fn decimal_number_in(v: &Vec<char>, lo: usize, hi: usize) -> (r: bool)
    requires
        lo <= hi <= v.len(),
    ensures
        r == is_decimal_number(v@.subrange(lo as int, hi as int)),
{
    let ghost s = v@.subrange(lo as int, hi as int);
    let e = find_exp_in(v, lo, hi);
    proof {
        assert(s.take(e as int) =~= v@.subrange(lo as int, lo + e));
    }
    if !mantissa_in(v, lo, lo + e) {
        return false;
    }
    if e == hi - lo {
        return true;
    }
    let mut x = lo + e + 1;
    proof {
        assert(s.skip(e + 1) =~= v@.subrange(lo + e + 1, hi as int));
    }
    if x < hi && (v[x] == '+' || v[x] == '-') {
        proof {
            assert(v@.subrange(x as int, hi as int)[0] == v@[x as int]);
            assert(v@.subrange(x as int, hi as int).drop_first() =~= v@.subrange(x + 1, hi as int));
        }
        x = x + 1;
    } else {
        proof {
            if x < hi {
                assert(v@.subrange(x as int, hi as int)[0] == v@[x as int]);
            }
        }
    }
    x < hi && digits_in(v, x, hi)
}

/// Whether `s` is text that `f64::from_str` accepts.
pub fn float_literal(s: &Vec<char>) -> (r: bool)
    ensures
        r == is_float_literal(s@),
{
    let n = s.len();
    let mut lo: usize = 0;
    proof {
        assert(s@.subrange(0, n as int) =~= s@);
    }
    if n > 0 && (s[0] == '+' || s[0] == '-') {
        lo = 1;
        proof {
            assert(s@.drop_first() =~= s@.subrange(1, n as int));
        }
    }
    let inf = vec!['i', 'n', 'f'];
    let infinity = vec!['i', 'n', 'f', 'i', 'n', 'i', 't', 'y'];
    let nan = vec!['n', 'a', 'n'];
    assert(inf@ =~= seq!['i', 'n', 'f']);
    assert(infinity@ =~= seq!['i', 'n', 'f', 'i', 'n', 'i', 't', 'y']);
    assert(nan@ =~= seq!['n', 'a', 'n']);
    spells_in(s, lo, n, &inf) || spells_in(s, lo, n, &infinity) || spells_in(s, lo, n, &nan)
        || decimal_number_in(s, lo, n)
}

/// The digit character for `d` (0 to 9).
pub open spec fn digit_char(d: nat) -> char {
    ((48 + d) as u32) as char
}

/// `n` written in decimal, without leading zeros.
pub open spec fn decimal(n: nat) -> Seq<char>
    decreases n,
{
    if n < 10 {
        seq![digit_char(n)]
    } else {
        decimal(n / 10).push(digit_char(n % 10))
    }
}

/// `n` written in decimal, with a minus sign when negative.
pub open spec fn signed_decimal(n: int) -> Seq<char> {
    if n < 0 {
        seq!['-'] + decimal((-n) as nat)
    } else {
        decimal(n as nat)
    }
}

/// Appends `n` in decimal to `out`.
pub fn push_decimal(out: &mut String, n: u64)
    ensures
        final(out)@ == old(out)@ + decimal(n as nat),
    decreases n,
{
    if n >= 10 {
        push_decimal(out, n / 10);
    }
    let d = (n % 10) as u8;
    let c = (48u8 + d) as char;
    assert(c == digit_char((n % 10) as nat));
    out.push(c);
    proof {
        if n >= 10 {
            assert(old(out)@ + decimal(n as nat) =~= old(out)@ + decimal((n / 10) as nat) + seq![c]);
        } else {
            assert(old(out)@ + decimal(n as nat) =~= old(out)@ + seq![c]);
        }
    }
}

/// `n` in decimal, as `to_string` writes it.
pub fn decimal_string(n: i64) -> (r: String)
    ensures
        r@ == signed_decimal(n as int),
{
    let mut out = String::new();
    if n < 0 {
        out.push('-');
        let m: u64 = if n == i64::MIN {
            9223372036854775808u64
        } else {
            (-n) as u64
        };
        push_decimal(&mut out, m);
        assert(out@ =~= seq!['-'] + decimal((-n) as nat));
    } else {
        push_decimal(&mut out, n as u64);
        assert(out@ =~= decimal(n as nat));
    }
    out
}

/// The value of the digits `s`.
pub open spec fn digits_value(s: Seq<char>) -> int
    decreases s.len(),
{
    if s.len() == 0 {
        0
    } else {
        digits_value(s.drop_last()) * 10 + digit_value(s.last())
    }
}

/// What `i32::from_str` gives: an optional sign and at least one digit,
/// when the value fits.
pub open spec fn parsed_i32(s: Seq<char>) -> Option<i32> {
    let d = unsigned_part(s);
    if d.len() == 0 || !all_digits(d) {
        None
    } else {
        let v = if s.len() > 0 && s[0] == '-' {
            -digits_value(d)
        } else {
            digits_value(d)
        };
        if i32::MIN <= v <= i32::MAX {
            Some(v as i32)
        } else {
            None
        }
    }
}

proof fn lemma_digits_value_grows(s: Seq<char>, k: int)
    requires
        0 <= k <= s.len(),
        all_digits(s),
    ensures
        0 <= digits_value(s.take(k)) <= digits_value(s),
    decreases s.len() - k,
{
    if k < s.len() {
        lemma_digits_value_grows(s, k + 1);
        assert(s.take(k + 1).drop_last() =~= s.take(k));
        assert(s.take(k + 1).last() == s[k]);
        assert(is_digit(s[k]));
    } else {
        assert(s.take(k) =~= s);
    }
    lemma_digits_value_nonneg(s.take(k));
}

proof fn lemma_digits_value_nonneg(s: Seq<char>)
    requires
        all_digits(s),
    ensures
        0 <= digits_value(s),
    decreases s.len(),
{
    if s.len() > 0 {
        assert forall|i: int| 0 <= i < s.drop_last().len() implies is_digit(#[trigger] s.drop_last()[i]) by {
            assert(s.drop_last()[i] == s[i]);
        }
        lemma_digits_value_nonneg(s.drop_last());
        assert(is_digit(s[s.len() - 1]));
    }
}

/// The `i32` that `s` spells, as `i32::from_str` reads it.
pub fn parse_i32(s: &str) -> (r: Option<i32>)
    ensures
        r == parsed_i32(s@),
{
    let v = chars_of(s);
    let n = v.len();
    let neg = n > 0 && v[0] == '-';
    let start: usize = if n > 0 && (v[0] == '+' || v[0] == '-') {
        1
    } else {
        0
    };
    let ghost d = v@.subrange(start as int, n as int);
    proof {
        if start == 1 {
            assert(v@.drop_first() =~= d);
        } else {
            assert(v@ =~= d);
        }
    }
    if start == n || !digits_in(&v, start, n) {
        return None;
    }
    let mut acc: i64 = 0;
    let mut i = start;
    while i < n
        invariant
            start <= i <= n,
            n == v@.len(),
            d == v@.subrange(start as int, n as int),
            d == unsigned_part(s@),
            v@ == s@,
            neg == (s@.len() > 0 && s@[0] == '-'),
            all_digits(d),
            acc == digits_value(d.take(i - start)),
            0 <= acc <= 2147483648,
        decreases n - i,
    {
        assert(is_digit(d[i - start]));
        assert(d[i - start] == v@[i as int]);
        let dv = (v[i] as u32 - 48) as i64;
        let next = acc * 10 + dv;
        proof {
            assert(d.take(i - start + 1).drop_last() =~= d.take(i - start));
            assert(d.take(i - start + 1).last() == d[i - start]);
            assert(next == digits_value(d.take(i - start + 1)));
        }
        if next > 2147483648 {
            proof {
                lemma_digits_value_grows(d, i - start + 1);
            }
            return None;
        }
        acc = next;
        i = i + 1;
    }
    proof {
        assert(d.take(n - start) =~= d);
    }
    if neg {
        Some((-acc) as i32)
    } else if acc <= 2147483647 {
        Some(acc as i32)
    } else {
        None
    }
}

} // verus!
