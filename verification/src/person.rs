//! A person known by name.

use vstd::prelude::*;

verus! {

/// A human being is represented here.
pub struct Person {
    name: String,
}

impl Person {
    /// The name, readable in specifications.
    pub closed spec fn spec_name(&self) -> Seq<char> {
        self.name@
    }

    /// Returns a person with the name given them.
    pub fn new(name: &str) -> (r: Person)
        ensures
            r.spec_name() == name@,
    {
        Person { name: String::from_str(name) }
    }

    /// A borrow of the name, for anyone who wants to greet them.
    pub fn name(&self) -> (r: &String)
        ensures
            r@ == self.spec_name(),
    {
        &self.name
    }
}

/// An age to sort into a life stage: fifteen, a teenager.
pub fn age() -> (r: u32)
    ensures
        r == 15,
{
    15
}

} // verus!
