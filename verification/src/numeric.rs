//! Decimal numbers as text: writing unsigned integers and recognising the
//! literals that stand for a window dimension.

use vstd::prelude::*;
use crate::text::{chars_equal, lower_chars, lowered, slice_of};

verus! {

pub open spec fn is_digit(c: char) -> bool {
    '0' <= c && c <= '9'
}

/// The character for one decimal digit.
pub open spec fn digit_char(d: nat) -> char
    recommends
        d < 10,
{
    (0x30 + d) as u8 as char
}

/// The decimal notation of `n`, without sign or leading zeros.
pub open spec fn decimal_text(n: nat) -> Seq<char>
    decreases n,
{
    if n < 10 {
        seq![digit_char(n)]
    } else {
        decimal_text(n / 10).push(digit_char(n % 10))
    }
}

/// Index of the first character at or after `from` that is no digit, or `s.len()`.
pub open spec fn skip_digits(s: Seq<char>, from: int) -> int
    decreases s.len() - from,
{
    if 0 <= from < s.len() && is_digit(s[from]) {
        skip_digits(s, from + 1)
    } else {
        from
    }
}

pub open spec fn is_sign(c: char) -> bool {
    c == '+' || c == '-'
}

/// `inf`, `infinity` or `nan`, in any mix of upper and lower case.
pub open spec fn is_named_float(body: Seq<char>) -> bool {
    let l = lowered(body);
    l == "inf"@ || l == "infinity"@ || l == "nan"@
}

/// An exponent starts at `at` and runs to the end of `body`:
/// `e` or `E`, an optional sign, then one digit or more.
pub open spec fn is_exponent(body: Seq<char>, at: int) -> bool {
    &&& 0 <= at < body.len()
    &&& body[at] == 'e' || body[at] == 'E'
    &&& {
        let digits = if at + 1 < body.len() && is_sign(body[at + 1]) {
            at + 2
        } else {
            at + 1
        };
        digits < body.len() && skip_digits(body, digits) == body.len()
    }
}

/// Digits with an optional `.` among them (at least one digit in all),
/// then an optional exponent.
pub open spec fn is_decimal_float(body: Seq<char>) -> bool {
    let int_end = skip_digits(body, 0);
    let has_point = int_end < body.len() && body[int_end] == '.';
    let mantissa_end = if has_point {
        skip_digits(body, int_end + 1)
    } else {
        int_end
    };
    let digit_count = if has_point {
        mantissa_end - 1
    } else {
        mantissa_end
    };
    digit_count > 0 && (mantissa_end == body.len() || is_exponent(body, mantissa_end))
}

/// The literals that denote a floating-point number: an optional sign, then
/// either a named value or a decimal number. No white space, no digit
/// separators, no hexadecimal.
pub open spec fn is_float_literal(s: Seq<char>) -> bool {
    let body = if s.len() > 0 && is_sign(s[0]) {
        s.skip(1)
    } else {
        s
    };
    is_named_float(body) || is_decimal_float(body)
}

pub fn is_digit_char(c: char) -> (r: bool)
    ensures
        r == is_digit(c),
{
    '0' <= c && c <= '9'
}

fn scan_digits(v: &Vec<char>, from: usize) -> (to: usize)
    requires
        from <= v@.len(),
    ensures
        to == skip_digits(v@, from as int),
        from <= to <= v@.len(),
{
    let mut i: usize = from;
    while i < v.len() && is_digit_char(v[i])
        invariant
            from <= i <= v@.len(),
            skip_digits(v@, i as int) == skip_digits(v@, from as int),
        decreases v@.len() - i,
    {
        i += 1;
    }
    i
}

fn check_exponent(body: &Vec<char>, at: usize) -> (r: bool)
    requires
        at < body@.len(),
    ensures
        r == is_exponent(body@, at as int),
{
    if body[at] != 'e' && body[at] != 'E' {
        return false;
    }
    let n = body.len();
    let digits: usize = if n - at > 1 && (body[at + 1] == '+' || body[at + 1] == '-') {
        at + 2
    } else {
        at + 1
    };
    if digits >= n {
        return false;
    }
    scan_digits(body, digits) == n
}

fn check_decimal_float(body: &Vec<char>) -> (r: bool)
    ensures
        r == is_decimal_float(body@),
{
    let n = body.len();
    let int_end = scan_digits(body, 0);
    let has_point = int_end < n && body[int_end] == '.';
    let mantissa_end: usize = if has_point {
        scan_digits(body, int_end + 1)
    } else {
        int_end
    };
    let digit_count: usize = if has_point {
        mantissa_end - 1
    } else {
        mantissa_end
    };
    if digit_count == 0 {
        return false;
    }
    mantissa_end == n || check_exponent(body, mantissa_end)
}

/// Whether `v` is a floating-point literal.
pub fn check_float_literal(v: &Vec<char>) -> (r: bool)
    ensures
        r == is_float_literal(v@),
{
    let body = if v.len() > 0 && (v[0] == '+' || v[0] == '-') {
        slice_of(v, 1, v.len())
    } else {
        slice_of(v, 0, v.len())
    };
    proof {
        assert(v@.subrange(0, v@.len() as int) =~= v@);
        assert(v@.subrange(1, v@.len() as int) =~= v@.skip(1));
    }
    let low = lower_chars(&body);
    if chars_equal(&low, "inf") || chars_equal(&low, "infinity") || chars_equal(&low, "nan") {
        return true;
    }
    check_decimal_float(&body)
}

/// The decimal notation of `n`.
pub fn decimal_chars(n: u64) -> (out: Vec<char>)
    ensures
        out@ == decimal_text(n as nat),
    decreases n,
{
    if n < 10 {
        let d: u8 = n as u8;
        let mut out: Vec<char> = Vec::new();
        out.push((0x30 + d) as char);
        proof {
            assert(out@ =~= seq![digit_char(n as nat)]);
        }
        out
    } else {
        let mut out = decimal_chars(n / 10);
        let d: u8 = (n % 10) as u8;
        out.push((0x30 + d) as char);
        out
    }
}

} // verus!
