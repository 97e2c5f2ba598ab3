//! Decimal integers as they appear in asset quantities and on the command
//! line: an optional sign followed by one or more ASCII digits.

use vstd::prelude::*;
use vstd::string::StrSliceExecFns;

verus! {

/// Whether `c` is one of the ASCII digits `0` to `9`.
pub open spec fn is_digit(c: char) -> bool {
    48 <= c as u32 && c as u32 <= 57
}

/// The number that the digit `c` stands for.
pub open spec fn digit_value(c: char) -> nat {
    (c as u32 - 48) as nat
}

/// Whether every character of `s` is a digit.
pub open spec fn all_digits(s: Seq<char>) -> bool {
    forall|i: int| 0 <= i < s.len() ==> is_digit(#[trigger] s[i])
}

/// The number written by the digits `s`, most significant first.
pub open spec fn decimal_value(s: Seq<char>) -> nat
    decreases s.len(),
{
    if s.len() == 0 {
        0
    } else {
        decimal_value(s.drop_last()) * 10 + digit_value(s.last())
    }
}

/// Whether `s` is a non-empty run of digits.
pub open spec fn is_numeral(s: Seq<char>) -> bool {
    s.len() > 0 && all_digits(s)
}

/// Whether `s` starts with a minus sign.
pub open spec fn has_minus(s: Seq<char>) -> bool {
    s.len() > 0 && s[0] == '-'
}

/// Whether `s` starts with a plus sign.
pub open spec fn has_plus(s: Seq<char>) -> bool {
    s.len() > 0 && s[0] == '+'
}

/// The integer written by `s`: a numeral, optionally preceded by one `+` or
/// `-`. Nothing else is an integer: no spaces, no separators, no bare sign.
pub open spec fn signed_decimal(s: Seq<char>) -> Option<int> {
    if has_minus(s) {
        if is_numeral(s.skip(1)) {
            Some(-(decimal_value(s.skip(1)) as int))
        } else {
            None
        }
    } else if has_plus(s) {
        if is_numeral(s.skip(1)) {
            Some(decimal_value(s.skip(1)) as int)
        } else {
            None
        }
    } else if is_numeral(s) {
        Some(decimal_value(s) as int)
    } else {
        None
    }
}

/// What `s` reads as a 32-bit signed integer, if it is one and fits.
pub open spec fn i32_of(s: Seq<char>) -> Option<i32> {
    match signed_decimal(s) {
        Some(v) => if i32::MIN <= v <= i32::MAX {
            Some(v as i32)
        } else {
            None
        },
        None => None,
    }
}

/// What `s` reads as a 32-bit unsigned integer, if it is one and fits. A
/// minus sign is never accepted, not even before zero.
pub open spec fn u32_of(s: Seq<char>) -> Option<u32> {
    if has_minus(s) {
        None
    } else {
        match signed_decimal(s) {
            Some(v) => if v <= u32::MAX {
                Some(v as u32)
            } else {
                None
            },
            None => None,
        }
    }
}

/// Appending a digit never makes the value smaller.
proof fn lemma_value_grows(s: Seq<char>, k: int)
    requires
        0 <= k < s.len(),
        is_digit(s[k]),
    ensures
        decimal_value(s.take(k + 1)) == decimal_value(s.take(k)) * 10 + digit_value(s[k]),
        decimal_value(s.take(k + 1)) >= decimal_value(s.take(k)),
{
    assert(s.take(k + 1).drop_last() =~= s.take(k));
    assert(s.take(k + 1).last() == s[k]);
}

/// Reads the digits of `s` from position `start` to its end. Returns their
/// value when there is at least one, all are digits and the value does not
/// exceed `limit`.
fn parse_numeral(s: &str, start: usize, limit: u64) -> (res: Option<u64>)
    requires
        start <= s@.len(),
        limit <= 0xffff_ffff,
    ensures
        res == if is_numeral(s@.skip(start as int)) && decimal_value(s@.skip(start as int))
            <= limit {
            Some(decimal_value(s@.skip(start as int)) as u64)
        } else {
            None
        },
{
    let len: usize = s.unicode_len();
    if start == len {
        return None;
    }
    let ghost digits = s@.skip(start as int);
    let mut acc: u64 = 0;
    let mut over: bool = false;
    let mut i: usize = start;
    while i < len
        invariant
            start <= i <= len,
            len == s@.len(),
            digits == s@.skip(start as int),
            limit <= 0xffff_ffff,
            all_digits(digits.take(i - start)),
            over ==> decimal_value(digits.take(i - start)) > limit,
            !over ==> acc == decimal_value(digits.take(i - start)) && acc <= limit,
        decreases len - i,
    {
        let c: char = s.get_char(i);
        let code: u32 = c as u32;
        assert(digits[i - start] == c);
        if code < 48 || code > 57 {
            assert(!is_digit(digits[i - start]));
            return None;
        }
        proof {
            lemma_value_grows(digits, i - start);
            assert forall|j: int| 0 <= j < i - start + 1 implies is_digit(
                #[trigger] digits.take(i - start + 1)[j],
            ) by {
                if j < i - start {
                    assert(digits.take(i - start)[j] == digits[j]);
                }
            }
        }
        if !over {
            let next: u64 = acc * 10 + (code - 48) as u64;
            if next > limit {
                over = true;
            } else {
                acc = next;
            }
        }
        i = i + 1;
    }
    assert(digits.take(len - start) =~= digits);
    if over {
        None
    } else {
        Some(acc)
    }
}

/// Reads `s` as a 32-bit signed integer.
pub fn parse_i32(s: &str) -> (res: Option<i32>)
    ensures
        res == i32_of(s@),
{
    let len: usize = s.unicode_len();
    if len == 0 {
        return None;
    }
    let first: char = s.get_char(0);
    if first == '-' {
        match parse_numeral(s, 1, 0x8000_0000) {
            Some(v) => {
                if v == 0x8000_0000 {
                    Some(i32::MIN)
                } else {
                    Some(0 - (v as i32))
                }
            },
            None => None,
        }
    } else if first == '+' {
        match parse_numeral(s, 1, 0x7fff_ffff) {
            Some(v) => Some(v as i32),
            None => None,
        }
    } else {
        assert(s@.skip(0) =~= s@);
        match parse_numeral(s, 0, 0x7fff_ffff) {
            Some(v) => Some(v as i32),
            None => None,
        }
    }
}

/// Reads `s` as a 32-bit unsigned integer.
pub fn parse_u32(s: &str) -> (res: Option<u32>)
    ensures
        res == u32_of(s@),
{
    let len: usize = s.unicode_len();
    if len == 0 {
        return None;
    }
    let first: char = s.get_char(0);
    if first == '-' {
        None
    } else if first == '+' {
        match parse_numeral(s, 1, 0xffff_ffff) {
            Some(v) => Some(v as u32),
            None => None,
        }
    } else {
        assert(s@.skip(0) =~= s@);
        match parse_numeral(s, 0, 0xffff_ffff) {
            Some(v) => Some(v as u32),
            None => None,
        }
    }
}

} // verus!
