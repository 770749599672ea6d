//! Basic integer arithmetic: sums, differences, and the several shapes a
//! division can take (panicking-free by precondition, by `Option`, by
//! `Result`).

use vstd::arithmetic::div_mod::lemma_div_basics;
use vstd::arithmetic::div_mod::lemma_div_is_strictly_smaller;
use vstd::arithmetic::div_mod::lemma_div_non_zero;
use vstd::arithmetic::div_mod::lemma_div_nonincreasing;
use vstd::arithmetic::div_mod::lemma_div_pos_is_pos;
use vstd::prelude::*;

verus! {

/// Truncating division, the semantics of `/` on Rust's signed integers:
/// the quotient is rounded towards zero.
pub open spec fn div_trunc(x: int, d: int) -> int {
    if x == 0 {
        0
    } else if x > 0 && d > 0 {
        x / d
    } else if x < 0 && d < 0 {
        (x * -1) / (d * -1)
    } else if x < 0 {
        ((x * -1) / d) * -1
    } else {
        (x / (d * -1)) * -1
    }
}

/// The quotient of two `i32` values rounded towards zero stays within the
/// `i32` range, except for `i32::MIN / -1`.
proof fn lemma_div_trunc_fits_i32(x: int, d: int)
    requires
        i32::MIN <= x <= i32::MAX,
        i32::MIN <= d <= i32::MAX,
        d != 0,
        !(x == i32::MIN && d == -1),
    ensures
        i32::MIN <= div_trunc(x, d) <= i32::MAX,
{
    let n = if x < 0 { -x } else { x };
    let m = if d < 0 { -d } else { d };
    lemma_div_pos_is_pos(n, m);
    lemma_div_nonincreasing(n, m);
    if m == 1 {
        lemma_div_basics(n);
    } else if n > 0 {
        lemma_div_is_strictly_smaller(n, m);
    }
}

/// The sum of two numbers.
pub fn add(a: i32, b: i32) -> (r: i32)
    requires
        i32::MIN <= a + b <= i32::MAX,
    ensures
        r == a + b,
{
    a + b
}

/// A sum gone wrong: subtracts instead of adding.
pub fn bad_add(a: i32, b: i32) -> (r: i32)
    requires
        i32::MIN <= a - b <= i32::MAX,
    ensures
        r == a - b,
{
    a - b
}

/// Division that insists on a nonzero divisor and a nonzero quotient.
pub fn divide_non_zero_result(a: u32, b: u32) -> (r: u32)
    requires
        b != 0,
        a >= b,
    ensures
        r == a as int / b as int,
        r >= 1,
{
    proof {
        lemma_div_non_zero(a as int, b as int);
    }
    a / b
}

/// Division that reports a zero divisor in its `Err` message instead of
/// panicking.
pub fn try_div(a: i32, b: i32) -> (r: Result<i32, String>)
    requires
        !(a == i32::MIN && b == -1),
    ensures
        b == 0 <==> r is Err,
        r matches Err(m) ==> m@ == "Divide-by-zero"@,
        r matches Ok(q) ==> q == div_trunc(a as int, b as int),
{
    if b == 0 {
        Err(String::from_str("Divide-by-zero"))
    } else {
        proof {
            lemma_div_trunc_fits_i32(a as int, b as int);
        }
        Ok(a.checked_div(b).unwrap())
    }
}

/// Plain division; the caller must rule out the zero divisor.
pub fn division(dividend: i32, divisor: i32) -> (r: i32)
    requires
        divisor != 0,
        !(dividend == i32::MIN && divisor == -1),
    ensures
        r == div_trunc(dividend as int, divisor as int),
{
    proof {
        lemma_div_trunc_fits_i32(dividend as int, divisor as int);
    }
    dividend.checked_div(divisor).unwrap()
}

/// Division that signals the zero divisor with `None`.
pub fn checked_division(dividend: i32, divisor: i32) -> (r: Option<i32>)
    requires
        !(dividend == i32::MIN && divisor == -1),
    ensures
        divisor == 0 <==> r is None,
        r matches Some(q) ==> q == div_trunc(dividend as int, divisor as int),
{
    if divisor == 0 {
        None
    } else {
        proof {
            lemma_div_trunc_fits_i32(dividend as int, divisor as int);
        }
        Some(dividend.checked_div(divisor).unwrap())
    }
}

/// The product of two borrowed numbers.
pub fn multiply(first: &i32, second: &i32) -> (r: i32)
    requires
        i32::MIN <= *first * *second <= i32::MAX,
    ensures
        r == *first * *second,
{
    *first * *second
}

/// The ways a chained checked computation can fail.
#[derive(Debug, Clone, Copy, PartialEq, Eq, Structural)]
pub enum MatchError {
    DivisionByZero,
    NonPositiveLogarithm,
    NegativeSquareRoot,
}

} // verus!
