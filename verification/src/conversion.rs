//! Converting between types through the standard conversion trait.

use vstd::prelude::*;

verus! {

/// A number that remembers where it came from.
#[derive(Debug, Clone, Copy, PartialEq, Eq, Structural)]
pub struct Number {
    pub value: i32,
}

impl From<i32> for Number {
    /// Wraps the integer unchanged.
    fn from(item: i32) -> (r: Self) {
        Number { value: item }
    }
}

impl vstd::std_specs::convert::FromSpecImpl<i32> for Number {
    open spec fn obeys_from_spec() -> bool {
        true
    }

    open spec fn from_spec(item: i32) -> Self {
        Number { value: item }
    }
}

} // verus!
