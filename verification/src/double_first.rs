//! Doubling the first element of a vector of number strings: the same
//! computation wrapped in each of the error-carrying shapes an API can
//! take.

use crate::parse_int::int_string_value;
use crate::parse_int::parse_error;
use crate::parse_int::parse_i32;
use crate::parse_int::parses_to_i32;
use crate::parse_int::ParseIntError;
use vstd::prelude::*;

verus! {

/// One opaque error for everything that can go wrong while doubling.
#[derive(Debug, Clone, Copy, PartialEq, Eq, Structural)]
pub struct DoubleError;

/// An error that keeps the cause: the vector was empty, or its first
/// element did not parse.
#[derive(Debug, Clone, Copy, PartialEq, Eq, Structural)]
pub enum DoubleFirstError {
    EmptyVec,
    Parse(ParseIntError),
}

/// The doubled value of the first string, if there is one and it parses.
pub open spec fn doubled_first(vec: Seq<&str>) -> int {
    2 * int_string_value(vec[0]@)
}

/// The vector is nonempty, its first string parses, and the doubled value
/// still fits in an `i32`.
pub open spec fn first_doubles(vec: Seq<&str>) -> bool {
    vec.len() > 0 && parses_to_i32(vec[0]@) && i32::MIN <= doubled_first(vec) <= i32::MAX
}

/// The caller must pass a nonempty vector whose first element parses.
pub fn double_first(vec: Vec<&str>) -> (r: i32)
    requires
        first_doubles(vec@),
    ensures
        r == doubled_first(vec@),
{
    let first = vec[0];
    2 * parse_i32(first).unwrap()
}

/// `None` for the empty vector; otherwise the parse result of the first
/// element, doubled.
pub fn double_first_v2(vec: Vec<&str>) -> (r: Option<Result<i32, ParseIntError>>)
    requires
        vec@.len() > 0 && parses_to_i32(vec@[0]@) ==> i32::MIN <= doubled_first(vec@) <= i32::MAX,
    ensures
        r is None <==> vec@.len() == 0,
        r matches Some(inner) ==> {
            &&& (inner is Ok <==> parses_to_i32(vec@[0]@))
            &&& (inner matches Ok(n) ==> n == doubled_first(vec@))
            &&& (inner matches Err(e) ==> e == parse_error(vec@[0]@))
        },
{
    if vec.len() == 0 {
        None
    } else {
        match parse_i32(vec[0]) {
            Ok(n) => Some(Ok(2 * n)),
            Err(e) => Some(Err(e)),
        }
    }
}

/// The same result with the two layers swapped: an error is reported
/// outside, a missing first element inside.
pub fn double_first_v3(vec: Vec<&str>) -> (r: Result<Option<i32>, ParseIntError>)
    requires
        vec@.len() > 0 && parses_to_i32(vec@[0]@) ==> i32::MIN <= doubled_first(vec@) <= i32::MAX,
    ensures
        vec@.len() == 0 ==> r == Ok::<Option<i32>, ParseIntError>(None),
        vec@.len() > 0 ==> {
            &&& (r is Ok <==> parses_to_i32(vec@[0]@))
            &&& (r matches Ok(opt) ==> opt matches Some(n) && n == doubled_first(vec@))
            &&& (r matches Err(e) ==> e == parse_error(vec@[0]@))
        },
{
    if vec.len() == 0 {
        Ok(None)
    } else {
        match parse_i32(vec[0]) {
            Ok(n) => Ok(Some(2 * n)),
            Err(e) => Err(e),
        }
    }
}

/// Both failure modes collapsed into one opaque error.
pub fn double_first_v4(vec: Vec<&str>) -> (r: Result<i32, DoubleError>)
    requires
        vec@.len() > 0 && parses_to_i32(vec@[0]@) ==> i32::MIN <= doubled_first(vec@) <= i32::MAX,
    ensures
        r is Ok <==> first_doubles(vec@),
        r matches Ok(n) ==> n == doubled_first(vec@),
{
    if vec.len() == 0 {
        Err(DoubleError)
    } else {
        match parse_i32(vec[0]) {
            Ok(n) => Ok(2 * n),
            Err(_) => Err(DoubleError),
        }
    }
}

/// Both failure modes kept apart in one error type.
pub fn double_first_v5(vec: Vec<&str>) -> (r: Result<i32, DoubleFirstError>)
    requires
        vec@.len() > 0 && parses_to_i32(vec@[0]@) ==> i32::MIN <= doubled_first(vec@) <= i32::MAX,
    ensures
        r is Ok <==> first_doubles(vec@),
        r matches Ok(n) ==> n == doubled_first(vec@),
        vec@.len() == 0 ==> r == Err::<i32, DoubleFirstError>(DoubleFirstError::EmptyVec),
        vec@.len() > 0 && !parses_to_i32(vec@[0]@) ==> r == Err::<i32, DoubleFirstError>(
            DoubleFirstError::Parse(parse_error(vec@[0]@)),
        ),
{
    if vec.len() == 0 {
        Err(DoubleFirstError::EmptyVec)
    } else {
        match parse_i32(vec[0]) {
            Ok(n) => Ok(2 * n),
            Err(e) => Err(DoubleFirstError::Parse(e)),
        }
    }
}

/// The same contract as its predecessor, with the errors converted as
/// they bubble up.
pub fn double_first_v6(vec: Vec<&str>) -> (r: Result<i32, DoubleFirstError>)
    requires
        vec@.len() > 0 && parses_to_i32(vec@[0]@) ==> i32::MIN <= doubled_first(vec@) <= i32::MAX,
    ensures
        r is Ok <==> first_doubles(vec@),
        r matches Ok(n) ==> n == doubled_first(vec@),
        vec@.len() == 0 ==> r == Err::<i32, DoubleFirstError>(DoubleFirstError::EmptyVec),
        vec@.len() > 0 && !parses_to_i32(vec@[0]@) ==> r == Err::<i32, DoubleFirstError>(
            DoubleFirstError::Parse(parse_error(vec@[0]@)),
        ),
{
    if vec.len() == 0 {
        return Err(DoubleFirstError::EmptyVec);
    }
    let parsed = match parse_i32(vec[0]) {
        Ok(n) => n,
        Err(e) => {
            return Err(DoubleFirstError::Parse(e));
        },
    };
    Ok(2 * parsed)
}

} // verus!
