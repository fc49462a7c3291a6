//! Verified parsing of unsigned decimal numerals, the form every console
//! prompt of the game accepts.

use vstd::prelude::*;

verus! {

pub open spec fn is_digit(c: char) -> bool {
    48 <= c as u32 && c as u32 <= 57
}

pub open spec fn digit_val(c: char) -> int {
    c as u32 - 48
}

/// The value of a digit string, most significant digit first.
pub open spec fn digits_value(s: Seq<char>) -> int
    decreases s.len(),
{
    if s.len() == 0 {
        0
    } else {
        digits_value(s.drop_last()) * 10 + digit_val(s.last())
    }
}

pub open spec fn all_digits(s: Seq<char>) -> bool {
    forall|i: int| 0 <= i < s.len() ==> is_digit(#[trigger] s[i])
}

/// The digit part of a numeral: everything after an optional leading
/// plus sign.
pub open spec fn numeral_digits(s: Seq<char>) -> Seq<char> {
    if s.len() > 0 && s[0] == '+' {
        s.drop_first()
    } else {
        s
    }
}

/// An unsigned decimal numeral: an optional leading plus sign, then at
/// least one digit and nothing else.
pub open spec fn is_numeral(s: Seq<char>) -> bool {
    numeral_digits(s).len() > 0 && all_digits(numeral_digits(s))
}

pub open spec fn numeral_value(s: Seq<char>) -> int {
    digits_value(numeral_digits(s))
}

/// Parse an unsigned decimal numeral: `Some` exactly when the characters
/// form a numeral whose value fits in `u32`, and then the value.
pub fn parse_u32(chars: &Vec<char>) -> (r: Option<u32>)
    ensures
        match r {
            Some(v) => is_numeral(chars@) && v == numeral_value(chars@),
            None => !is_numeral(chars@) || numeral_value(chars@) > u32::MAX,
        },
{
    let n = chars.len();
    let start: usize = if n > 0 && chars[0] == '+' {
        1
    } else {
        0
    };
    proof {
        assert(numeral_digits(chars@) =~= chars@.subrange(start as int, n as int));
    }
    if start == n {
        return None;
    }
    let mut acc: u32 = 0;
    let ghost mut val: int = 0;
    let mut overflow = false;
    let mut i: usize = start;
    while i < n
        invariant
            start <= i <= n == chars@.len(),
            numeral_digits(chars@) == chars@.subrange(start as int, n as int),
            all_digits(chars@.subrange(start as int, i as int)),
            val == digits_value(chars@.subrange(start as int, i as int)),
            !overflow ==> acc == val,
            overflow ==> val > u32::MAX,
            val >= 0,
        decreases n - i,
    {
        let c = chars[i];
        let u = c as u32;
        if u < 48 || u > 57 {
            proof {
                assert(numeral_digits(chars@) =~= chars@.subrange(start as int, n as int));
                assert(numeral_digits(chars@)[i - start] == chars@[i as int]);
                assert(!is_digit(chars@[i as int]));
            }
            return None;
        }
        let d = u - 48;
        proof {
            assert(chars@.subrange(start as int, i as int + 1).drop_last() =~= chars@.subrange(
                start as int,
                i as int,
            ));
            assert(chars@.subrange(start as int, i as int + 1).last() == chars@[i as int]);
            assert(is_digit(c));
            assert(digit_val(c) == d);
        }
        if !overflow && acc <= (u32::MAX - d) / 10 {
            acc = acc * 10 + d;
        } else {
            overflow = true;
        }
        proof {
            val = val * 10 + digit_val(chars@[i as int]);
        }
        i = i + 1;
    }
    proof {
        assert(chars@.subrange(start as int, n as int) == numeral_digits(chars@));
    }
    if overflow {
        None
    } else {
        Some(acc)
    }
}

/// The characters of a string, in order.
pub fn str_to_chars(s: &str) -> (v: Vec<char>)
    ensures
        v@ == s@,
{
    let n = s.unicode_len();
    let mut v: Vec<char> = Vec::new();
    let mut i: usize = 0;
    while i < n
        invariant
            i <= n == s@.len(),
            v@ =~= s@.subrange(0, i as int),
        decreases n - i,
    {
        v.push(s.get_char(i));
        i = i + 1;
    }
    proof {
        assert(v@ =~= s@);
    }
    v
}

} // verus!
