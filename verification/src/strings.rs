//! Character-level string work: equality, decimal rendering of a number,
//! and the digit sum of a numeric string.

use crate::parse_int::all_digits;
use crate::parse_int::digit_value;
use vstd::prelude::*;

verus! {

/// Compares two strings character by character.
pub fn str_eq(a: &str, b: &str) -> (r: bool)
    ensures
        r == (a@ == b@),
{
    let a_len = a.unicode_len();
    let b_len = b.unicode_len();
    if a_len != b_len {
        return false;
    }
    let mut i: usize = 0;
    while i < a_len
        invariant
            i <= a_len,
            a_len == a@.len(),
            b_len == b@.len(),
            a_len == b_len,
            forall|j: int| 0 <= j < i ==> a@[j] == b@[j],
        decreases a_len - i,
    {
        if a.get_char(i) != b.get_char(i) {
            return false;
        }
        i += 1;
    }
    proof {
        assert(a@ =~= b@);
    }
    true
}

/// The character for one decimal digit.
pub open spec fn digit_char(d: int) -> char {
    ((48 + d) as u8) as char
}

/// The decimal digits of a nonnegative number, most significant first.
pub open spec fn decimal_digits(n: int) -> Seq<char>
    recommends
        n >= 0,
    decreases n,
{
    if n < 10 {
        seq![digit_char(n)]
    } else {
        decimal_digits(n / 10).push(digit_char(n % 10))
    }
}

/// One digit as a string of its own.
fn digit_to_string(d: u32) -> (r: String)
    requires
        d < 10,
    ensures
        r@ =~= seq![digit_char(d as int)],
{
    proof {
        reveal_strlit("0");
        reveal_strlit("1");
        reveal_strlit("2");
        reveal_strlit("3");
        reveal_strlit("4");
        reveal_strlit("5");
        reveal_strlit("6");
        reveal_strlit("7");
        reveal_strlit("8");
        reveal_strlit("9");
    }
    match d {
        0 => String::from_str("0"),
        1 => String::from_str("1"),
        2 => String::from_str("2"),
        3 => String::from_str("3"),
        4 => String::from_str("4"),
        5 => String::from_str("5"),
        6 => String::from_str("6"),
        7 => String::from_str("7"),
        8 => String::from_str("8"),
        _ => String::from_str("9"),
    }
}

/// Renders a number in decimal.
pub fn u32_to_string(n: u32) -> (r: String)
    ensures
        r@ == decimal_digits(n as int),
    decreases n,
{
    if n < 10 {
        digit_to_string(n)
    } else {
        let high = u32_to_string(n / 10);
        let low = digit_to_string(n % 10);
        let r = high.concat(low.as_str());
        proof {
            assert(r@ =~= decimal_digits(n as int));
        }
        r
    }
}

/// The sum of the digits of a numeric string.
pub open spec fn digit_sum_of(s: Seq<char>) -> int
    decreases s.len(),
{
    if s.len() == 0 {
        0
    } else {
        digit_sum_of(s.drop_last()) + digit_value(s.last())
    }
}

/// Adds up the digits of a string of digits.
pub fn digit_sum(s: &str) -> (r: u32)
    requires
        all_digits(s@),
        s@.len() * 9 <= u32::MAX,
    ensures
        r == digit_sum_of(s@),
{
    let len = s.unicode_len();
    let mut acc: u32 = 0;
    let mut i: usize = 0;
    while i < len
        invariant
            i <= len,
            len == s@.len(),
            all_digits(s@),
            len * 9 <= u32::MAX,
            acc == digit_sum_of(s@.subrange(0, i as int)),
            acc <= i * 9,
        decreases len - i,
    {
        let c = s.get_char(i);
        assert(crate::parse_int::is_digit(s@[i as int]));
        let d: u32 = (c as u32) - 48;
        proof {
            let prefix1 = s@.subrange(0, i + 1);
            assert(prefix1.drop_last() =~= s@.subrange(0, i as int));
            assert(prefix1.last() == s@[i as int]);
        }
        acc = acc + d;
        i += 1;
    }
    proof {
        assert(s@.subrange(0, len as int) =~= s@);
    }
    acc
}

} // verus!
