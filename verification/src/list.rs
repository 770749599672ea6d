//! A singly linked list of numbers built from `Cons` cells, with its
//! contents modelled as a sequence.

use crate::strings::decimal_digits;
use vstd::prelude::*;

verus! {

/// A list is either a cell holding an element and the rest, or the end.
pub enum List {
    Cons(u32, Box<List>),
    Nil,
}

/// The text of a list: each element in decimal, a comma and a space
/// after it, and `Nil` at the end.
pub open spec fn stringified(elems: Seq<u32>) -> Seq<char>
    decreases elems.len(),
{
    if elems.len() == 0 {
        "Nil"@
    } else {
        decimal_digits(elems[0] as int) + ", "@ + stringified(elems.drop_first())
    }
}

impl List {
    /// The elements of the list, front first.
    pub open spec fn elems(self) -> Seq<u32>
        decreases self,
    {
        match self {
            List::Nil => Seq::empty(),
            List::Cons(head, tail) => seq![head] + tail.elems(),
        }
    }

    /// The empty list.
    pub fn new() -> (r: List)
        ensures
            r.elems() == Seq::<u32>::empty(),
    {
        List::Nil
    }

    /// The same list with one more element at the front.
    pub fn prepend(self, elem: u32) -> (r: List)
        ensures
            r.elems() == seq![elem] + self.elems(),
    {
        List::Cons(elem, Box::new(self))
    }

    /// How many elements the list holds.
    pub fn len(&self) -> (r: u32)
        requires
            self.elems().len() <= u32::MAX,
        ensures
            r == self.elems().len(),
        decreases *self,
    {
        match self {
            List::Nil => 0,
            List::Cons(_, tail) => {
                proof {
                    assert(self.elems().drop_first() =~= tail.elems());
                }
                1 + tail.len()
            },
        }
    }

    /// The list written out, ending in `Nil`.
    pub fn stringify(&self) -> (r: String)
        ensures
            r@ == stringified(self.elems()),
        decreases *self,
    {
        match self {
            List::Nil => String::from_str("Nil"),
            List::Cons(head, tail) => {
                let shown = crate::strings::u32_to_string(*head);
                let rest = tail.stringify();
                let r = shown.concat(", ").concat(rest.as_str());
                proof {
                    assert(self.elems().drop_first() =~= tail.elems());
                    assert(self.elems()[0] == *head);
                    assert(r@ =~= stringified(self.elems()));
                }
                r
            },
        }
    }
}

} // verus!
