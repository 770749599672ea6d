//! Generic functions, generic containers, and traits as bounds: the
//! compile-time machinery, with contracts where there is a value to pin
//! down.

use vstd::prelude::*;

verus! {

/// A concrete marker type.
pub struct A;

/// A tuple struct over the concrete type.
pub struct S(pub A);

/// A tuple struct generic over its content.
pub struct SGen<T>(pub T);

/// Takes any value and drops it.
pub fn foo<T>(arg: T) {
}

/// Takes the concrete wrapper.
pub fn reg_fn(_s: S) {
}

/// Takes the generic wrapper at the concrete type.
pub fn gen_spec_t(_s: SGen<A>) {
}

/// Takes the generic wrapper at `i32`.
pub fn gen_spec_i32(_s: SGen<i32>) {
}

/// Takes the generic wrapper at any type.
pub fn generic<T>(_s: SGen<T>) {
}

/// A value behind a generic field.
pub struct GenVal<T> {
    pub gen_val: T,
}

impl<T> GenVal<T> {
    /// A borrow of the held value.
    pub fn value(&self) -> (r: &T)
        ensures
            r == &self.gen_val,
    {
        &self.gen_val
    }
}

/// A pair of numbers that can be asked for its ends.
pub trait Contains<X, Y> {
    /// Whether the container holds exactly these two values.
    spec fn spec_contains(&self, number_1: &X, number_2: &Y) -> bool;

    /// The first value as a number.
    spec fn spec_first(&self) -> i32;

    /// The last value as a number.
    spec fn spec_last(&self) -> i32;

    fn contains(&self, number_1: &X, number_2: &Y) -> (r: bool)
        ensures
            r == self.spec_contains(number_1, number_2),
    ;

    fn first(&self) -> (r: i32)
        ensures
            r == self.spec_first(),
    ;

    fn last(&self) -> (r: i32)
        ensures
            r == self.spec_last(),
    ;
}

/// Two numbers side by side.
pub struct Container(pub i32, pub i32);

impl Contains<i32, i32> for Container {
    open spec fn spec_contains(&self, number_1: &i32, number_2: &i32) -> bool {
        self.0 == *number_1 && self.1 == *number_2
    }

    open spec fn spec_first(&self) -> i32 {
        self.0
    }

    open spec fn spec_last(&self) -> i32 {
        self.1
    }

    fn contains(&self, number_1: &i32, number_2: &i32) -> bool {
        self.0 == *number_1 && self.1 == *number_2
    }

    fn first(&self) -> i32 {
        self.0
    }

    fn last(&self) -> i32 {
        self.1
    }
}

/// First minus last, for any container that has both.
pub fn difference<X, Y, C: Contains<X, Y>>(container: &C) -> (r: i32)
    requires
        i32::MIN <= container.spec_first() - container.spec_last() <= i32::MAX,
    ensures
        r == container.spec_first() - container.spec_last(),
{
    container.first() - container.last()
}

/// The same interface with the element types fixed by the implementor.
pub trait AContains {
    type X;

    type Y;

    /// Whether the container holds exactly these two values.
    spec fn spec_contains(&self, number_1: &Self::X, number_2: &Self::Y) -> bool;

    /// The first value as a number.
    spec fn spec_first(&self) -> i32;

    /// The last value as a number.
    spec fn spec_last(&self) -> i32;

    fn contains(&self, number_1: &Self::X, number_2: &Self::Y) -> (r: bool)
        ensures
            r == self.spec_contains(number_1, number_2),
    ;

    fn first(&self) -> (r: i32)
        ensures
            r == self.spec_first(),
    ;

    fn last(&self) -> (r: i32)
        ensures
            r == self.spec_last(),
    ;
}

/// Two numbers side by side, for the associated-type interface.
pub struct AContainer(pub i32, pub i32);

impl AContains for AContainer {
    type X = i32;

    type Y = i32;

    open spec fn spec_contains(&self, number_1: &i32, number_2: &i32) -> bool {
        self.0 == *number_1 && self.1 == *number_2
    }

    open spec fn spec_first(&self) -> i32 {
        self.0
    }

    open spec fn spec_last(&self) -> i32 {
        self.1
    }

    fn contains(&self, number_1: &i32, number_2: &i32) -> bool {
        self.0 == *number_1 && self.1 == *number_2
    }

    fn first(&self) -> i32 {
        self.0
    }

    fn last(&self) -> i32 {
        self.1
    }
}

/// Last minus first, for the associated-type interface.
pub fn a_difference<C: AContains>(container: &C) -> (r: i32)
    requires
        i32::MIN <= container.spec_last() - container.spec_first() <= i32::MAX,
    ensures
        r == container.spec_last() - container.spec_first(),
{
    container.last() - container.first()
}

/// A bird that is red.
pub struct Cardinal;

/// A bird that is blue.
pub struct BlueJay;

/// A bird that is neither.
pub struct Turkey;

/// The types that count as red.
pub trait Red {

}

/// The types that count as blue.
pub trait Blue {

}

impl Red for Cardinal {

}

impl Blue for BlueJay {

}

/// Any red thing is called red.
pub fn red<T: Red>(_bird: &T) -> (r: &'static str)
    ensures
        r@ == "red"@,
{
    "red"
}

/// Any blue thing is called blue.
pub fn blue<T: Blue>(_bird: &T) -> (r: &'static str)
    ensures
        r@ == "blue"@,
{
    "blue"
}

} // verus!
