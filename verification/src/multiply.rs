//! Multiplying two numbers given as strings, in the several error-handling
//! styles: panicking-free by precondition, nested matches, combinators,
//! early returns, and the question-mark operator. All variants meet one
//! specification.

use crate::parse_int::int_string_value;
use crate::parse_int::parse_error;
use crate::parse_int::parse_i32;
use crate::parse_int::parses_to_i32;
use crate::parse_int::ParseIntError;
use vstd::prelude::*;

verus! {

/// The product both strings denote, if both parse.
pub open spec fn product_of(a: Seq<char>, b: Seq<char>) -> int {
    int_string_value(a) * int_string_value(b)
}

/// What any fallible string-multiplication must return: the product when
/// both strings parse, and otherwise the error of the first string that
/// does not.
pub open spec fn multiply_result(a: Seq<char>, b: Seq<char>, r: Result<i32, ParseIntError>) -> bool {
    &&& (r is Ok <==> parses_to_i32(a) && parses_to_i32(b))
    &&& (r matches Ok(p) ==> p == product_of(a, b))
    &&& (!parses_to_i32(a) ==> r == Err::<i32, ParseIntError>(parse_error(a)))
    &&& (parses_to_i32(a) && !parses_to_i32(b) ==> r == Err::<i32, ParseIntError>(parse_error(b)))
}

/// The caller must pass two strings that parse; the product is returned
/// directly.
pub fn multiply(first_number_str: &str, second_number_str: &str) -> (r: i32)
    requires
        parses_to_i32(first_number_str@),
        parses_to_i32(second_number_str@),
        i32::MIN <= product_of(first_number_str@, second_number_str@) <= i32::MAX,
    ensures
        r == product_of(first_number_str@, second_number_str@),
{
    let first_number = parse_i32(first_number_str).unwrap();
    let second_number = parse_i32(second_number_str).unwrap();
    first_number * second_number
}

/// Multiplication by nested matches on each parse result.
pub fn multiply_v2(first_number_str: &str, second_number_str: &str) -> (r: Result<
    i32,
    ParseIntError,
>)
    requires
        parses_to_i32(first_number_str@) && parses_to_i32(second_number_str@) ==> i32::MIN
            <= product_of(first_number_str@, second_number_str@) <= i32::MAX,
    ensures
        multiply_result(first_number_str@, second_number_str@, r),
{
    match parse_i32(first_number_str) {
        Ok(first_number) => match parse_i32(second_number_str) {
            Ok(second_number) => Ok(first_number * second_number),
            Err(e) => Err(e),
        },
        Err(e) => Err(e),
    }
}

/// Multiplication with the parse results taken apart one after the other.
pub fn multiply_v3(first_number_str: &str, second_number_str: &str) -> (r: Result<
    i32,
    ParseIntError,
>)
    requires
        parses_to_i32(first_number_str@) && parses_to_i32(second_number_str@) ==> i32::MIN
            <= product_of(first_number_str@, second_number_str@) <= i32::MAX,
    ensures
        multiply_result(first_number_str@, second_number_str@, r),
{
    let first = parse_i32(first_number_str);
    match first {
        Ok(first_number) => {
            let by_first = |second_number: i32| -> (p: i32)
                requires
                    i32::MIN <= first_number * second_number <= i32::MAX,
                ensures
                    p == first_number * second_number,
                { first_number * second_number };
            parse_i32(second_number_str).map(by_first)
        },
        Err(e) => Err(e),
    }
}

/// The same computation once more, under the alias result type.
pub fn multiply_v4(first_number_str: &str, second_number_str: &str) -> (r: Result<
    i32,
    ParseIntError,
>)
    requires
        parses_to_i32(first_number_str@) && parses_to_i32(second_number_str@) ==> i32::MIN
            <= product_of(first_number_str@, second_number_str@) <= i32::MAX,
    ensures
        multiply_result(first_number_str@, second_number_str@, r),
{
    multiply_v3(first_number_str, second_number_str)
}

/// Multiplication with early returns on either parse error.
pub fn multiply_v5(first_number_str: &str, second_number_str: &str) -> (r: Result<
    i32,
    ParseIntError,
>)
    requires
        parses_to_i32(first_number_str@) && parses_to_i32(second_number_str@) ==> i32::MIN
            <= product_of(first_number_str@, second_number_str@) <= i32::MAX,
    ensures
        multiply_result(first_number_str@, second_number_str@, r),
{
    let first_number = match parse_i32(first_number_str) {
        Ok(n) => n,
        Err(e) => {
            return Err(e);
        },
    };
    let second_number = match parse_i32(second_number_str) {
        Ok(n) => n,
        Err(e) => {
            return Err(e);
        },
    };
    Ok(first_number * second_number)
}

/// Multiplication with the question-mark operator.
pub fn multiply_v6(first_number_str: &str, second_number_str: &str) -> (r: Result<
    i32,
    ParseIntError,
>)
    requires
        parses_to_i32(first_number_str@) && parses_to_i32(second_number_str@) ==> i32::MIN
            <= product_of(first_number_str@, second_number_str@) <= i32::MAX,
    ensures
        multiply_result(first_number_str@, second_number_str@, r),
{
    let first_number = parse_i32(first_number_str)?;
    let second_number = parse_i32(second_number_str)?;
    Ok(first_number * second_number)
}

} // verus!
