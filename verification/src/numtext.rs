//! Byte-level grammars for the numeric measurement fields.
//!
//! The wire payload sends every measurement as a string. A period or
//! direction string is meaningful when it is a decimal integer that fits
//! in `i32`; a height or temperature string is meaningful when it matches
//! the grammar that `f32` parsing accepts (an optional sign, then a
//! decimal number with optional fraction and exponent, or one of the
//! words `inf`, `infinity`, `nan`, case-insensitively). Both grammars are
//! stated here as spec functions over byte sequences and decided by
//! verified code.

use vstd::prelude::*;

verus! {

/// ASCII decimal digit.
pub open spec fn is_digit(b: u8) -> bool {
    48 <= b && b <= 57
}

/// ASCII `+` or `-`.
pub open spec fn is_sign(b: u8) -> bool {
    b == 43 || b == 45
}

/// Every byte of `s` is a decimal digit.
pub open spec fn all_digits(s: Seq<u8>) -> bool {
    forall|i: int| 0 <= i < s.len() ==> is_digit(#[trigger] s[i])
}

/// `s` without one leading sign byte, if it has one.
pub open spec fn strip_sign(s: Seq<u8>) -> Seq<u8> {
    if s.len() > 0 && is_sign(s[0]) {
        s.drop_first()
    } else {
        s
    }
}

/// Value of a digit string read as a decimal number.
pub open spec fn dec_val(s: Seq<u8>) -> int
    decreases s.len(),
{
    if s.len() == 0 {
        0
    } else {
        dec_val(s.drop_last()) * 10 + (s.last() - 48)
    }
}

/// What `i32` parsing makes of `s`: an optional sign followed by at
/// least one digit, whose value fits in `i32`; `None` on any other text
/// and on overflow.
pub open spec fn spec_parse_i32(s: Seq<u8>) -> Option<int> {
    let body = strip_sign(s);
    if body.len() > 0 && all_digits(body) {
        let v = if s.len() > 0 && s[0] == 45 {
            -dec_val(body)
        } else {
            dec_val(body)
        };
        if -2147483648 <= v && v <= 2147483647 {
            Some(v)
        } else {
            None
        }
    } else {
        None
    }
}

/// Index of the first byte of `s` equal to `t1` or `t2`, or `s.len()`.
pub open spec fn first_at(s: Seq<u8>, t1: u8, t2: u8) -> int
    decreases s.len(),
{
    if s.len() == 0 {
        0
    } else if s[0] == t1 || s[0] == t2 {
        0
    } else {
        1 + first_at(s.drop_first(), t1, t2)
    }
}

/// `b` equals the lowercase letter `lower`, ignoring ASCII case.
pub open spec fn eq_ci(b: u8, lower: u8) -> bool {
    b == lower || (97 <= lower && lower <= 122 && b + 32 == lower)
}

/// `s` spells `word` (a lowercase word), ignoring ASCII case.
pub open spec fn matches_ci(s: Seq<u8>, word: Seq<u8>) -> bool {
    s.len() == word.len() && forall|i: int| 0 <= i < s.len() ==> eq_ci(#[trigger] s[i], word[i])
}

pub open spec fn inf_word() -> Seq<u8> {
    seq![105u8, 110u8, 102u8]
}

pub open spec fn infinity_word() -> Seq<u8> {
    seq![105u8, 110u8, 102u8, 105u8, 110u8, 105u8, 116u8, 121u8]
}

pub open spec fn nan_word() -> Seq<u8> {
    seq![110u8, 97u8, 110u8]
}

/// One of the non-finite words that float parsing accepts.
pub open spec fn is_special_word(s: Seq<u8>) -> bool {
    matches_ci(s, inf_word()) || matches_ci(s, infinity_word()) || matches_ci(s, nan_word())
}

/// Digits with at most one point among them, and at least one digit:
/// the part of a float literal before any exponent.
pub open spec fn mantissa_ok(s: Seq<u8>) -> bool {
    let d = first_at(s, 46, 46);
    if d == s.len() {
        s.len() >= 1 && all_digits(s)
    } else {
        s.len() >= 2 && all_digits(s.take(d)) && all_digits(s.skip(d + 1))
    }
}

/// An exponent tail: an optional sign followed by at least one digit.
pub open spec fn exp_ok(s: Seq<u8>) -> bool {
    strip_sign(s).len() >= 1 && all_digits(strip_sign(s))
}

/// `s` matches the grammar that `f32` parsing accepts: an optional sign,
/// then a non-finite word or a mantissa with an optional `e`/`E` exponent.
pub open spec fn is_float_text(s: Seq<u8>) -> bool {
    let body = strip_sign(s);
    is_special_word(body) || {
        let e = first_at(body, 101, 69);
        if e == body.len() {
            mantissa_ok(body)
        } else {
            mantissa_ok(body.take(e)) && exp_ok(body.skip(e + 1))
        }
    }
}

proof fn lemma_first_at(s: Seq<u8>, t1: u8, t2: u8, i: int)
    requires
        0 <= i <= s.len(),
        forall|j: int| 0 <= j < i ==> !(#[trigger] s[j] == t1 || s[j] == t2),
        i < s.len() ==> (s[i] == t1 || s[i] == t2),
    ensures
        first_at(s, t1, t2) == i,
    decreases s.len(),
{
    if s.len() == 0 {
    } else if s[0] == t1 || s[0] == t2 {
        assert(i == 0);
    } else {
        assert(i >= 1);
        let t = s.drop_first();
        assert(forall|j: int| 0 <= j < i - 1 ==> !(#[trigger] t[j] == t1 || t[j] == t2)) by {
            assert(forall|j: int| 0 <= j < i - 1 ==> t[j] == s[j + 1]);
        }
        assert(i - 1 < t.len() ==> (t[i - 1] == t1 || t[i - 1] == t2));
        lemma_first_at(t, t1, t2, i - 1);
    }
}

/// Whether every byte of `s[lo..hi]` is a decimal digit.
fn all_digits_range(s: &Vec<u8>, lo: usize, hi: usize) -> (r: bool)
    requires
        lo <= hi <= s.len(),
    ensures
        r == all_digits(s@.subrange(lo as int, hi as int)),
{
    let ghost sub = s@.subrange(lo as int, hi as int);
    let mut i: usize = lo;
    while i < hi
        invariant
            lo <= i <= hi <= s@.len(),
            sub == s@.subrange(lo as int, hi as int),
            forall|j: int| lo <= j < i ==> is_digit(#[trigger] s@[j]),
        decreases hi - i,
    {
        let b = s[i];
        if b < 48 || b > 57 {
            assert(sub[i - lo] == s@[i as int]);
            return false;
        }
        i += 1;
    }
    assert forall|k: int| 0 <= k < sub.len() implies is_digit(#[trigger] sub[k]) by {
        assert(sub[k] == s@[lo + k]);
    }
    true
}

/// Index of the first byte of `s[lo..hi]` equal to `t1` or `t2`, or `hi`.
fn find_first(s: &Vec<u8>, lo: usize, hi: usize, t1: u8, t2: u8) -> (r: usize)
    requires
        lo <= hi <= s.len(),
    ensures
        lo <= r <= hi,
        r - lo == first_at(s@.subrange(lo as int, hi as int), t1, t2),
        r < hi ==> (s@[r as int] == t1 || s@[r as int] == t2),
        forall|j: int| lo <= j < r ==> !(#[trigger] s@[j] == t1 || s@[j] == t2),
{
    let ghost sub = s@.subrange(lo as int, hi as int);
    let mut i: usize = lo;
    while i < hi
        invariant
            lo <= i <= hi <= s@.len(),
            sub == s@.subrange(lo as int, hi as int),
            forall|j: int| lo <= j < i ==> !(#[trigger] s@[j] == t1 || s@[j] == t2),
        decreases hi - i,
    {
        let b = s[i];
        if b == t1 || b == t2 {
            proof {
                assert(forall|j: int| 0 <= j < i - lo ==> !(#[trigger] sub[j] == t1 || sub[j] == t2)) by {
                    assert(forall|j: int| 0 <= j < i - lo ==> sub[j] == s@[lo + j]);
                }
                assert(sub[i - lo] == s@[i as int]);
                lemma_first_at(sub, t1, t2, i - lo);
            }
            return i;
        }
        i += 1;
    }
    proof {
        assert(forall|j: int| 0 <= j < hi - lo ==> !(#[trigger] sub[j] == t1 || sub[j] == t2)) by {
            assert(forall|j: int| 0 <= j < hi - lo ==> sub[j] == s@[lo + j]);
        }
        lemma_first_at(sub, t1, t2, hi - lo);
    }
    hi
}

/// Whether `s[lo..hi]` spells `word` ignoring ASCII case.
fn matches_ci_range(s: &Vec<u8>, lo: usize, hi: usize, word: &Vec<u8>) -> (r: bool)
    requires
        lo <= hi <= s.len(),
    ensures
        r == matches_ci(s@.subrange(lo as int, hi as int), word@),
{
    let ghost sub = s@.subrange(lo as int, hi as int);
    if hi - lo != word.len() {
        return false;
    }
    let mut k: usize = 0;
    while k < word.len()
        invariant
            lo <= hi <= s@.len(),
            hi - lo == word@.len(),
            k <= word@.len(),
            sub == s@.subrange(lo as int, hi as int),
            forall|j: int| 0 <= j < k ==> eq_ci(#[trigger] sub[j], word@[j]),
        decreases word@.len() - k,
    {
        let b = s[lo + k];
        let w = word[k];
        assert(sub[k as int] == s@[lo + k]);
        if !(b == w || (97 <= w && w <= 122 && b <= 90 && b + 32 == w)) {
            return false;
        }
        k += 1;
    }
    true
}

/// Whether `s[lo..hi]` is a valid exponent tail.
fn exp_ok_range(s: &Vec<u8>, lo: usize, hi: usize) -> (r: bool)
    requires
        lo <= hi <= s.len(),
    ensures
        r == exp_ok(s@.subrange(lo as int, hi as int)),
{
    let ghost sub = s@.subrange(lo as int, hi as int);
    let lo2: usize = if lo < hi && (s[lo] == 43u8 || s[lo] == 45u8) {
        lo + 1
    } else {
        lo
    };
    proof {
        assert(strip_sign(sub) =~= s@.subrange(lo2 as int, hi as int));
    }
    if hi - lo2 < 1 {
        return false;
    }
    all_digits_range(s, lo2, hi)
}

/// Whether `s[lo..hi]` is a valid mantissa.
fn mantissa_ok_range(s: &Vec<u8>, lo: usize, hi: usize) -> (r: bool)
    requires
        lo <= hi <= s.len(),
    ensures
        r == mantissa_ok(s@.subrange(lo as int, hi as int)),
{
    let ghost sub = s@.subrange(lo as int, hi as int);
    let d = find_first(s, lo, hi, 46, 46);
    if d == hi {
        if hi - lo < 1 {
            return false;
        }
        all_digits_range(s, lo, hi)
    } else {
        proof {
            assert(sub.take(d - lo) =~= s@.subrange(lo as int, d as int));
            assert(sub.skip(d - lo + 1) =~= s@.subrange(d + 1, hi as int));
        }
        if hi - lo < 2 {
            return false;
        }
        let a = all_digits_range(s, lo, d);
        if !a {
            return false;
        }
        all_digits_range(s, d + 1, hi)
    }
}

/// Decides membership in the float grammar: `true` exactly when `f32`
/// parsing would accept the bytes of `s` as a number.
pub fn is_float_literal(s: &Vec<u8>) -> (r: bool)
    ensures
        r == is_float_text(s@),
{
    let n = s.len();
    let start: usize = if n > 0 && (s[0] == 43u8 || s[0] == 45u8) {
        1
    } else {
        0
    };
    let ghost body = strip_sign(s@);
    proof {
        assert(body =~= s@.subrange(start as int, n as int));
    }
    let mut infw: Vec<u8> = Vec::new();
    infw.push(105u8);
    infw.push(110u8);
    infw.push(102u8);
    let mut infinityw: Vec<u8> = Vec::new();
    infinityw.push(105u8);
    infinityw.push(110u8);
    infinityw.push(102u8);
    infinityw.push(105u8);
    infinityw.push(110u8);
    infinityw.push(105u8);
    infinityw.push(116u8);
    infinityw.push(121u8);
    let mut nanw: Vec<u8> = Vec::new();
    nanw.push(110u8);
    nanw.push(97u8);
    nanw.push(110u8);
    proof {
        assert(infw@ =~= inf_word());
        assert(infinityw@ =~= infinity_word());
        assert(nanw@ =~= nan_word());
    }
    if matches_ci_range(s, start, n, &infw) {
        return true;
    }
    if matches_ci_range(s, start, n, &infinityw) {
        return true;
    }
    if matches_ci_range(s, start, n, &nanw) {
        return true;
    }
    let e = find_first(s, start, n, 101u8, 69u8);
    if e == n {
        mantissa_ok_range(s, start, n)
    } else {
        proof {
            assert(body.take(e - start) =~= s@.subrange(start as int, e as int));
            assert(body.skip(e - start + 1) =~= s@.subrange(e + 1, n as int));
        }
        let m = mantissa_ok_range(s, start, e);
        if !m {
            return false;
        }
        exp_ok_range(s, e + 1, n)
    }
}

/// Reads `s` as an `i32`, or returns `fallback` where the text is not a
/// decimal integer in range: the tolerant per-field policy made explicit.
pub fn parse_i32_or(s: &Vec<u8>, fallback: i32) -> (r: i32)
    ensures
        match spec_parse_i32(s@) {
            Some(v) => r as int == v,
            None => r == fallback,
        },
{
    let n = s.len();
    let neg = n > 0 && s[0] == 45u8;
    let start: usize = if n > 0 && (s[0] == 43u8 || s[0] == 45u8) {
        1
    } else {
        0
    };
    let ghost body = strip_sign(s@);
    proof {
        assert(body =~= s@.subrange(start as int, n as int));
    }
    if start >= n {
        return fallback;
    }
    let mut acc: u64 = 0;
    let mut over: bool = false;
    let mut i: usize = start;
    while i < n
        invariant
            start <= i <= n,
            n == s@.len(),
            start <= 1,
            body == strip_sign(s@),
            body =~= s@.subrange(start as int, n as int),
            forall|j: int| start <= j < i ==> is_digit(#[trigger] s@[j]),
            !over ==> acc as int == dec_val(s@.subrange(start as int, i as int)),
            !over ==> acc <= 30000000009u64,
            over ==> dec_val(s@.subrange(start as int, i as int)) > 2147483648,
        decreases n - i,
    {
        let b = s[i];
        if b < 48 || b > 57 {
            assert(body[i - start] == s@[i as int]);
            return fallback;
        }
        let ghost pre = s@.subrange(start as int, i as int);
        let ghost post = s@.subrange(start as int, i + 1);
        proof {
            assert(post.drop_last() =~= pre);
            assert(post.last() == s@[i as int]);
            assert(dec_val(post) == dec_val(pre) * 10 + (s@[i as int] - 48));
        }
        if over {
            assert(dec_val(post) > 2147483648) by {
                assert(dec_val(pre) * 10 >= dec_val(pre) + 9 * dec_val(pre));
            }
        } else if acc > 3000000000u64 {
            over = true;
            assert(dec_val(post) > 2147483648);
        } else {
            acc = acc * 10 + ((b - 48u8) as u64);
        }
        i += 1;
    }
    assert(all_digits(body)) by {
        assert(forall|k: int| 0 <= k < body.len() ==> body[k] == s@[start + k]);
    }
    assert(body.len() >= 1);
    if over {
        return fallback;
    }
    assert(acc as int == dec_val(body));
    if neg {
        if acc > 2147483648u64 {
            return fallback;
        }
        if acc == 2147483648u64 {
            return i32::MIN;
        }
        let v: i32 = acc as i32;
        return -v;
    }
    if acc > 2147483647u64 {
        return fallback;
    }
    acc as i32
}

} // verus!
