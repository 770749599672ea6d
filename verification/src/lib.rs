//! A small library of verified introductory examples: integer arithmetic,
//! decimal parsing, option and result pipelines, a linked list, iterators,
//! newtype conversions, and generic containers, each with a full contract.

use vstd::prelude::*;

pub mod accounts;
pub mod args;
pub mod arithmetic;
pub mod borrows;
pub mod boxes;
pub mod closures;
pub mod conversion;
pub mod double_first;
pub mod fibonacci;
pub mod fizzbuzz;
pub mod food;
pub mod generics;
pub mod list;
pub mod multiply;
pub mod parse_int;
pub mod person;
pub mod sheep;
pub mod strings;
pub mod units;

verus! {

/// Swaps the two components of a pair.
pub fn reverse(pair: (i32, bool)) -> (r: (bool, i32))
    ensures
        r.0 == pair.1,
        r.1 == pair.0,
{
    let (integer, boolean) = pair;
    (boolean, integer)
}

} // verus!
