//! A decimal parser for `i32` with an exact characterisation of which
//! strings parse, which value they denote, and which error every other
//! string produces.

use vstd::prelude::*;

verus! {

/// Why a string failed to parse as an `i32`.
#[derive(Debug, Clone, Copy, PartialEq, Eq, Structural)]
pub enum ParseIntError {
    /// The string was empty.
    Empty,
    /// A character other than an optional leading sign and digits.
    InvalidDigit,
    /// A well-formed number outside the `i32` range.
    Overflow,
}

/// A decimal digit.
pub open spec fn is_digit(c: char) -> bool {
    '0' as int <= c as int <= '9' as int
}

/// The numeric value of a digit.
pub open spec fn digit_value(c: char) -> int {
    c as int - '0' as int
}

/// Every character of the sequence is a digit.
pub open spec fn all_digits(s: Seq<char>) -> bool {
    forall|i: int| 0 <= i < s.len() ==> is_digit(s[i])
}

/// The value of a digit sequence, most significant digit first.
pub open spec fn digits_value(s: Seq<char>) -> int
    decreases s.len(),
{
    if s.len() == 0 {
        0
    } else {
        digits_value(s.drop_last()) * 10 + digit_value(s.last())
    }
}

/// The string starts with an explicit sign.
pub open spec fn has_sign(s: Seq<char>) -> bool {
    s.len() > 0 && (s[0] == '+' || s[0] == '-')
}

/// The string with any leading sign removed.
pub open spec fn digits_part(s: Seq<char>) -> Seq<char> {
    if has_sign(s) {
        s.subrange(1, s.len() as int)
    } else {
        s
    }
}

/// An optional sign followed by at least one digit and nothing else.
pub open spec fn is_int_string(s: Seq<char>) -> bool {
    digits_part(s).len() > 0 && all_digits(digits_part(s))
}

/// The integer a well-formed string denotes.
pub open spec fn int_string_value(s: Seq<char>) -> int {
    if s.len() > 0 && s[0] == '-' {
        -digits_value(digits_part(s))
    } else {
        digits_value(digits_part(s))
    }
}

/// The string denotes an integer that fits in an `i32`.
pub open spec fn parses_to_i32(s: Seq<char>) -> bool {
    is_int_string(s) && i32::MIN <= int_string_value(s) <= i32::MAX
}

/// The error reported for a string that does not parse as an `i32`.
pub open spec fn parse_error(s: Seq<char>) -> ParseIntError {
    if s.len() == 0 {
        ParseIntError::Empty
    } else if !is_int_string(s) {
        ParseIntError::InvalidDigit
    } else {
        ParseIntError::Overflow
    }
}

/// A digit sequence has a nonnegative value.
proof fn lemma_digits_value_nonneg(s: Seq<char>)
    requires
        all_digits(s),
    ensures
        digits_value(s) >= 0,
    decreases s.len(),
{
    if s.len() > 0 {
        assert(all_digits(s.drop_last()));
        lemma_digits_value_nonneg(s.drop_last());
    }
}

/// Extending a digit sequence never decreases its value.
proof fn lemma_digits_value_prefix_le(s: Seq<char>, k: int)
    requires
        all_digits(s),
        0 <= k <= s.len(),
    ensures
        digits_value(s.subrange(0, k)) <= digits_value(s),
    decreases s.len() - k,
{
    if k < s.len() {
        let t = s.subrange(0, k + 1);
        assert(t.drop_last() =~= s.subrange(0, k));
        assert(all_digits(t.drop_last()));
        lemma_digits_value_nonneg(t.drop_last());
        assert(digits_value(t) == digits_value(s.subrange(0, k)) * 10 + digit_value(t.last()));
        assert(digits_value(s.subrange(0, k)) * 10 >= digits_value(s.subrange(0, k))) by (nonlinear_arith)
            requires digits_value(s.subrange(0, k)) >= 0;
        lemma_digits_value_prefix_le(s, k + 1);
    } else {
        assert(s.subrange(0, k) =~= s);
    }
}

/// Parses a decimal integer: an optional `+` or `-` sign followed by one
/// or more digits. Returns exactly the value the string denotes, or says
/// precisely why it cannot.
pub fn parse_i32(s: &str) -> (r: Result<i32, ParseIntError>)
    ensures
        r matches Ok(n) ==> parses_to_i32(s@) && n == int_string_value(s@),
        r matches Err(e) ==> !parses_to_i32(s@) && e == parse_error(s@),
{
    let len = s.unicode_len();
    if len == 0 {
        return Err(ParseIntError::Empty);
    }
    let first = s.get_char(0);
    let neg = first == '-';
    let start: usize = if first == '-' || first == '+' {
        1
    } else {
        0
    };
    if start == len {
        // a bare sign has no digits
        return Err(ParseIntError::InvalidDigit);
    }
    let ghost dig = s@.subrange(start as int, len as int);
    proof {
        assert(dig =~= digits_part(s@));
    }
    let mut i: usize = start;
    while i < len
        invariant
            start <= i <= len,
            len == s@.len(),
            start < len,
            dig == s@.subrange(start as int, len as int),
            dig == digits_part(s@),
            forall|j: int| start <= j < i ==> is_digit(s@[j]),
        decreases len - i,
    {
        let c = s.get_char(i);
        if (c as u32) < 48 || (c as u32) > 57 {
            proof {
                assert(!is_digit(dig[i - start]));
            }
            return Err(ParseIntError::InvalidDigit);
        }
        i += 1;
    }
    proof {
        assert(forall|j: int| 0 <= j < dig.len() ==> dig[j] == s@[start + j]);
        assert(all_digits(dig));
    }
    let limit: u32 = if neg {
        0x8000_0000
    } else {
        0x7FFF_FFFF
    };
    let mut acc: u32 = 0;
    let mut k: usize = start;
    while k < len
        invariant
            start <= k <= len,
            len == s@.len(),
            start < len,
            dig == s@.subrange(start as int, len as int),
            all_digits(dig),
            is_int_string(s@),
            dig == digits_part(s@),
            neg == (s@[0] == '-'),
            limit == if neg { 0x8000_0000u32 } else { 0x7FFF_FFFFu32 },
            acc <= limit,
            acc == digits_value(dig.subrange(0, k - start)),
        decreases len - k,
    {
        let c = s.get_char(k);
        assert(dig[k - start] == s@[k as int]);
        assert(is_digit(s@[k as int]));
        let d: u32 = (c as u32) - 48;
        let ghost prefix = dig.subrange(0, k - start);
        let ghost prefix1 = dig.subrange(0, k + 1 - start);
        proof {
            assert(prefix1.drop_last() =~= prefix);
            assert(prefix1.last() == s@[k as int]);
            assert(digits_value(prefix1) == digits_value(prefix) * 10 + digit_value(s@[k as int]));
        }
        if acc > (limit - d) / 10 {
            proof {
                // acc * 10 + d overflows the limit, and appending further
                // digits can only push the value higher
                assert(acc * 10 + d > limit) by (nonlinear_arith)
                    requires
                        acc > (limit - d) / 10,
                        0 <= d <= 9,
                        limit >= 9,
                        acc >= 0;
                lemma_digits_value_prefix_le(dig, k + 1 - start);
                assert(digits_value(dig) > limit);
            }
            return Err(ParseIntError::Overflow);
        }
        proof {
            assert(acc * 10 + d <= limit) by (nonlinear_arith)
                requires
                    acc <= (limit - d) / 10,
                    0 <= d <= 9,
                    limit >= 9,
                    acc >= 0;
        }
        acc = acc * 10 + d;
        k += 1;
    }
    proof {
        assert(dig.subrange(0, len - start) =~= dig);
    }
    if neg {
        if acc == 0x8000_0000 {
            Ok(i32::MIN)
        } else {
            Ok(-(acc as i32))
        }
    } else {
        Ok(acc as i32)
    }
}

} // verus!
