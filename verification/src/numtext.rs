//! Numeric text: which strings read as numbers, and with what value.
//!
//! The two coercible fields accept a JSON string in place of a number. The
//! postal code must read as an unsigned 32-bit integer; the amount must read
//! as a floating-point literal. Both readings are defined here as spec
//! functions over character sequences, with verified executable checkers.

use vstd::prelude::*;

verus! {

/// An ASCII decimal digit.
pub open spec fn is_dec_digit(c: char) -> bool {
    '0' <= c && c <= '9'
}

/// The numeric value of one decimal digit.
pub open spec fn digit_val(c: char) -> nat
    recommends
        is_dec_digit(c),
{
    (c as int - '0' as int) as nat
}

pub open spec fn all_digits(s: Seq<char>) -> bool {
    forall|i: int| 0 <= i < s.len() ==> is_dec_digit(#[trigger] s[i])
}

/// The value of a run of decimal digits, most significant first.
pub open spec fn digits_val(s: Seq<char>) -> nat
    decreases s.len(),
{
    if s.len() == 0 {
        0
    } else {
        digits_val(s.drop_last()) * 10 + digit_val(s.last())
    }
}

/// Extending a digit run to the right never shrinks its value.
proof fn lemma_digits_val_prefix(s: Seq<char>, k: int)
    requires
        0 <= k <= s.len(),
    ensures
        digits_val(s.take(k)) <= digits_val(s),
    decreases s.len() - k,
{
    if k == s.len() {
        assert(s.take(k) =~= s);
    } else {
        assert(s.take(k + 1).drop_last() =~= s.take(k));
        assert(s.take(k + 1).last() == s[k]);
        assert(digits_val(s.take(k + 1)) == digits_val(s.take(k)) * 10 + digit_val(s[k]));
        lemma_digits_val_prefix(s, k + 1);
    }
}

/// The digits of an unsigned decimal text: Rust's unsigned parsing accepts
/// one optional leading `+` before the digit run.
pub open spec fn unsigned_digits(s: Seq<char>) -> Seq<char> {
    if s.len() > 0 && s[0] == '+' {
        s.skip(1)
    } else {
        s
    }
}

/// How a string reads as a `u32`: an optional `+`, then at least one decimal
/// digit, and a value no greater than `u32::MAX`; `None` on anything else.
pub open spec fn spec_u32_text(s: Seq<char>) -> Option<u32> {
    let d = unsigned_digits(s);
    if d.len() >= 1 && all_digits(d) && digits_val(d) <= u32::MAX {
        Some(digits_val(d) as u32)
    } else {
        None
    }
}

/// How a number's canonical decimal text reads as a `u64`: a plain digit run
/// (no sign, no fraction, no exponent) whose value fits; `None` otherwise.
pub open spec fn spec_u64_digits(s: Seq<char>) -> Option<u64> {
    if s.len() >= 1 && all_digits(s) && digits_val(s) <= u64::MAX {
        Some(digits_val(s) as u64)
    } else {
        None
    }
}

/// Reads `s` as a `u32` exactly as `spec_u32_text` defines.
pub fn parse_u32_text(s: &str) -> (r: Option<u32>)
    ensures
        r == spec_u32_text(s@),
{
    let n: usize = s.unicode_len();
    let start: usize = if n > 0 && s.get_char(0) == '+' {
        1
    } else {
        0
    };
    let ghost d = unsigned_digits(s@);
    proof {
        assert(d =~= s@.skip(start as int));
    }
    if n == start {
        return None;
    }
    let mut acc: u64 = 0;
    let mut i: usize = start;
    while i < n
        invariant
            start <= i <= n,
            n == s@.len(),
            d == s@.skip(start as int),
            d == unsigned_digits(s@),
            n - start == d.len(),
            all_digits(d.take(i - start)),
            acc == digits_val(d.take(i - start)),
            acc <= u32::MAX,
        decreases n - i,
    {
        let c = s.get_char(i);
        if c < '0' || c > '9' {
            assert(!is_dec_digit(d[i - start]));
            return None;
        }
        let dv: u32 = (c as u32) - ('0' as u32);
        proof {
            assert(d.take(i - start + 1).drop_last() =~= d.take(i - start));
            assert(d.take(i - start + 1).last() == d[i - start]);
            assert(d[i - start] == c);
        }
        acc = acc * 10 + (dv as u64);
        i = i + 1;
        assert(acc == digits_val(d.take(i - start)));
        if acc > 0xFFFF_FFFFu64 {
            proof {
                if all_digits(d) && digits_val(d) <= u32::MAX {
                    lemma_digits_val_prefix(d, i - start);
                }
            }
            return None;
        }
    }
    proof {
        assert(d.take(n - start) =~= d);
    }
    Some(acc as u32)
}

/// One optional leading sign stripped from a floating-point text.
pub open spec fn strip_sign(s: Seq<char>) -> Seq<char> {
    if s.len() > 0 && (s[0] == '+' || s[0] == '-') {
        s.skip(1)
    } else {
        s
    }
}

/// "inf", ASCII case-insensitive.
pub open spec fn is_inf_text(s: Seq<char>) -> bool {
    s.len() == 3 && (s[0] == 'i' || s[0] == 'I') && (s[1] == 'n' || s[1] == 'N') && (s[2] == 'f'
        || s[2] == 'F')
}

/// "infinity", ASCII case-insensitive.
pub open spec fn is_infinity_text(s: Seq<char>) -> bool {
    s.len() == 8 && (s[0] == 'i' || s[0] == 'I') && (s[1] == 'n' || s[1] == 'N') && (s[2] == 'f'
        || s[2] == 'F') && (s[3] == 'i' || s[3] == 'I') && (s[4] == 'n' || s[4] == 'N') && (s[5]
        == 'i' || s[5] == 'I') && (s[6] == 't' || s[6] == 'T') && (s[7] == 'y' || s[7] == 'Y')
}

/// "nan", ASCII case-insensitive.
pub open spec fn is_nan_text(s: Seq<char>) -> bool {
    s.len() == 3 && (s[0] == 'n' || s[0] == 'N') && (s[1] == 'a' || s[1] == 'A') && (s[2] == 'n'
        || s[2] == 'N')
}

pub open spec fn is_special_float(s: Seq<char>) -> bool {
    is_inf_text(s) || is_infinity_text(s) || is_nan_text(s)
}

pub open spec fn is_exp_marker(c: char) -> bool {
    c == 'e' || c == 'E'
}

/// The index of the first exponent marker, or the length when there is none.
pub open spec fn exp_cut(s: Seq<char>) -> int
    decreases s.len(),
{
    if s.len() == 0 {
        0
    } else if is_exp_marker(s[0]) {
        0
    } else {
        1 + exp_cut(s.skip(1))
    }
}

proof fn lemma_exp_cut(s: Seq<char>)
    ensures
        0 <= exp_cut(s) <= s.len(),
        forall|i: int| 0 <= i < exp_cut(s) ==> !is_exp_marker(#[trigger] s[i]),
        exp_cut(s) < s.len() ==> is_exp_marker(s[exp_cut(s)]),
    decreases s.len(),
{
    if s.len() == 0 {
    } else if is_exp_marker(s[0]) {
    } else {
        lemma_exp_cut(s.skip(1));
        assert forall|i: int| 0 <= i < exp_cut(s) implies !is_exp_marker(#[trigger] s[i]) by {
            if i > 0 {
                assert(s[i] == s.skip(1)[i - 1]);
            }
        }
        if exp_cut(s) < s.len() {
            assert(s[exp_cut(s)] == s.skip(1)[exp_cut(s) - 1]);
        }
    }
}

/// A mantissa: digits with at most one decimal point, and at least one digit.
pub open spec fn mantissa_ok(m: Seq<char>) -> bool {
    &&& forall|i: int| 0 <= i < m.len() ==> is_dec_digit(#[trigger] m[i]) || m[i] == '.'
    &&& forall|i: int, j: int| 0 <= i < j < m.len() ==> !(#[trigger] m[i] == '.' && #[trigger] m[j]
        == '.')
    &&& exists|i: int| 0 <= i < m.len() && is_dec_digit(#[trigger] m[i])
}

/// An exponent part: an optional sign, then at least one digit.
pub open spec fn exponent_ok(e: Seq<char>) -> bool {
    let d = if e.len() > 0 && (e[0] == '+' || e[0] == '-') {
        e.skip(1)
    } else {
        e
    };
    d.len() >= 1 && all_digits(d)
}

/// An unsigned decimal number text: a mantissa, optionally followed by an
/// exponent marker and an exponent part.
pub open spec fn number_ok(s: Seq<char>) -> bool {
    let k = exp_cut(s);
    mantissa_ok(s.take(k)) && (k < s.len() ==> exponent_ok(s.skip(k + 1)))
}

/// Text accepted for the amount field: what reads as a floating-point
/// literal. One optional sign, then a special word (`inf`, `infinity`,
/// `nan`, case-insensitive) or a decimal number with an optional exponent.
pub open spec fn is_float_text(s: Seq<char>) -> bool {
    let b = strip_sign(s);
    is_special_float(b) || number_ok(b)
}

/// Decides `is_float_text` for a string.
pub fn is_amount_text(s: &str) -> (r: bool)
    ensures
        r == is_float_text(s@),
{
    let n: usize = s.unicode_len();
    let start: usize = if n > 0 {
        let c0 = s.get_char(0);
        if c0 == '+' || c0 == '-' {
            1
        } else {
            0
        }
    } else {
        0
    };
    let ghost b = strip_sign(s@);
    proof {
        assert(b =~= s@.skip(start as int));
    }
    let m: usize = n - start;
    if m == 3 || m == 8 {
        let c0 = s.get_char(start);
        let c1 = s.get_char(start + 1);
        let c2 = s.get_char(start + 2);
        if m == 3 {
            if (c0 == 'i' || c0 == 'I') && (c1 == 'n' || c1 == 'N') && (c2 == 'f' || c2 == 'F') {
                return true;
            }
            if (c0 == 'n' || c0 == 'N') && (c1 == 'a' || c1 == 'A') && (c2 == 'n' || c2 == 'N') {
                return true;
            }
        } else {
            let c3 = s.get_char(start + 3);
            let c4 = s.get_char(start + 4);
            let c5 = s.get_char(start + 5);
            let c6 = s.get_char(start + 6);
            let c7 = s.get_char(start + 7);
            if (c0 == 'i' || c0 == 'I') && (c1 == 'n' || c1 == 'N') && (c2 == 'f' || c2 == 'F') && (
            c3 == 'i' || c3 == 'I') && (c4 == 'n' || c4 == 'N') && (c5 == 'i' || c5 == 'I') && (c6
                == 't' || c6 == 'T') && (c7 == 'y' || c7 == 'Y') {
                return true;
            }
        }
    }
    assert(!is_special_float(b));
    is_number_text(s, start, n)
}

/// Decides `number_ok` on `s[start..n]`, the body of a candidate number.
fn is_number_text(s: &str, start: usize, n: usize) -> (r: bool)
    requires
        start <= n,
        n == s@.len(),
    ensures
        r == number_ok(s@.skip(start as int)),
{
    let ghost b = s@.skip(start as int);
    proof {
        lemma_exp_cut(b);
    }
    // Find the first exponent marker, if any.
    let mut k: usize = start;
    let mut found = false;
    while k < n && !found
        invariant
            start <= k <= n,
            n == s@.len(),
            b == s@.skip(start as int),
            forall|i: int| 0 <= i < k - start ==> !is_exp_marker(#[trigger] b[i]),
            found ==> k < n && is_exp_marker(b[k - start]),
        decreases (if found {
            0int
        } else {
            n - k + 1
        }),
    {
        let c = s.get_char(k);
        if c == 'e' || c == 'E' {
            found = true;
        } else {
            k = k + 1;
        }
    }
    proof {
        // k - start matches the spec cut: both are the first marker or the end.
        if k - start < exp_cut(b) {
            assert(is_exp_marker(b[k - start]));
        }
        if exp_cut(b) < k - start {
            assert(!is_exp_marker(b[exp_cut(b)]));
        }
        assert(k - start == exp_cut(b));
    }
    // Check the mantissa: digits, at most one '.', at least one digit.
    let ghost mant = b.take(k - start);
    let mut seen_dot = false;
    let mut seen_digit = false;
    let mut i: usize = start;
    while i < k
        invariant
            start <= i <= k <= n,
            n == s@.len(),
            b == s@.skip(start as int),
            mant == b.take(k - start),
            k - start <= b.len(),
            k - start == exp_cut(b),
            forall|p: int| 0 <= p < i - start ==> is_dec_digit(#[trigger] mant[p]) || mant[p]
                == '.',
            seen_dot == exists|p: int| 0 <= p < i - start && #[trigger] mant[p] == '.',
            seen_digit == exists|p: int| 0 <= p < i - start && is_dec_digit(#[trigger] mant[p]),
            forall|p: int, q: int| 0 <= p < q < i - start ==> !(#[trigger] mant[p] == '.'
                && #[trigger] mant[q] == '.'),
        decreases k - i,
    {
        let c = s.get_char(i);
        assert(mant[i - start] == c);
        if c == '.' {
            if seen_dot {
                assert(!mantissa_ok(mant));
                return false;
            }
            seen_dot = true;
        } else if c >= '0' && c <= '9' {
            seen_digit = true;
        } else {
            assert(!(is_dec_digit(mant[i - start]) || mant[i - start] == '.'));
            assert(!mantissa_ok(mant));
            return false;
        }
        i = i + 1;
    }
    if !seen_digit {
        assert(!mantissa_ok(mant));
        return false;
    }
    assert(mantissa_ok(mant));
    if k == n {
        return true;
    }
    // Check the exponent part after the marker: optional sign, then digits.
    let ghost ex = b.skip(k - start + 1);
    proof {
        assert(ex =~= s@.skip((k + 1) as int));
    }
    let estart: usize = if k + 1 < n {
        let c = s.get_char(k + 1);
        if c == '+' || c == '-' {
            k + 2
        } else {
            k + 1
        }
    } else {
        k + 1
    };
    let ghost ed = if ex.len() > 0 && (ex[0] == '+' || ex[0] == '-') {
        ex.skip(1)
    } else {
        ex
    };
    proof {
        assert(ed =~= s@.skip(estart as int));
        assert(exponent_ok(ex) == (ed.len() >= 1 && all_digits(ed)));
    }
    if estart == n {
        assert(!exponent_ok(ex));
        return false;
    }
    let mut j: usize = estart;
    while j < n
        invariant
            estart <= j <= n,
            n == s@.len(),
            b == s@.skip(start as int),
            k - start == exp_cut(b),
            k < n,
            ed == s@.skip(estart as int),
            exponent_ok(ex) == (ed.len() >= 1 && all_digits(ed)),
            ex == b.skip(k - start + 1),
            forall|p: int| 0 <= p < j - estart ==> is_dec_digit(#[trigger] ed[p]),
        decreases n - j,
    {
        let c = s.get_char(j);
        if c < '0' || c > '9' {
            assert(!is_dec_digit(ed[j - estart]));
            assert(!exponent_ok(ex));
            return false;
        }
        assert(ed[j - estart] == c);
        j = j + 1;
    }
    assert(all_digits(ed));
    assert(exponent_ok(ex));
    true
}

} // verus!
