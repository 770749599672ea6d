//! Boxes whose contents are open or kept private, and a little heap
//! allocation that is freed on scope exit.

use vstd::prelude::*;

verus! {

/// A box anyone can look into.
pub struct OpenBox<T> {
    pub contents: T,
}

/// A box whose contents only a constructor can place.
pub struct CloseBox<T> {
    contents: T,
}

impl<T> CloseBox<T> {
    /// The contents of the box, readable only in specifications.
    pub closed spec fn spec_contents(&self) -> &T {
        &self.contents
    }

    /// Seals a value into the box.
    pub fn new(contents: T) -> (r: CloseBox<T>)
        ensures
            r.spec_contents() == &contents,
    {
        CloseBox { contents }
    }
}

/// Allocates an integer on the heap and lets it go out of scope again.
pub fn create_box() {
    let _box = Box::new(3i32);
}

} // verus!
