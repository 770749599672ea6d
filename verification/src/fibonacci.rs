//! A Fibonacci stream kept as the pair of its current and next value.

use vstd::prelude::*;

verus! {

/// The state of the stream: the value just produced and the one to come.
pub struct Fibonacci {
    pub curr: u32,
    pub next: u32,
}

impl Fibonacci {
    /// Advances the stream and hands out the new current value.
    pub fn next(&mut self) -> (r: Option<u32>)
        requires
            old(self).curr + old(self).next <= u32::MAX,
        ensures
            final(self).curr == old(self).next,
            final(self).next == old(self).curr + old(self).next,
            r == Some(final(self).curr),
    {
        let new_next: u32 = self.curr + self.next;
        self.curr = self.next;
        self.next = new_next;
        Some(self.curr)
    }
}

/// A fresh stream, about to produce `1, 2, 3, 5, ...`.
pub fn fibonacci() -> (r: Fibonacci)
    ensures
        r.curr == 1,
        r.next == 1,
{
    Fibonacci { curr: 1, next: 1 }
}

} // verus!
