//! Borrowing, lifetimes, and mutation through references, each with the
//! relation between old and new value written out.

use vstd::prelude::*;

verus! {

/// A book identified by author, title and year.
#[derive(Debug, Clone, Copy)]
pub struct Book {
    pub author: &'static str,
    pub title: &'static str,
    pub year: u32,
}

/// A new edition keeps everything but the year, which becomes 2014.
pub fn new_edition(book: &mut Book)
    ensures
        final(book).year == 2014,
        final(book).author == old(book).author,
        final(book).title == old(book).title,
{
    book.year = 2014;
}

/// A struct holding one borrowed number.
#[derive(Debug)]
pub struct Borrowed<'a>(pub &'a i32);

/// A struct holding two borrowed numbers.
#[derive(Debug)]
pub struct NamedBorrowed<'a> {
    pub x: &'a i32,
    pub y: &'a i32,
}

/// Either an owned number or a borrowed one.
#[derive(Debug)]
pub enum Either<'a> {
    Num(i32),
    Ref(&'a i32),
}

/// A struct with a borrowed field and a default borrow.
#[derive(Debug)]
pub struct BorrowedOne<'a> {
    pub x: &'a i32,
}

impl<'a> Default for BorrowedOne<'a> {
    /// The default borrows a ten.
    fn default() -> (r: Self)
        ensures
            *r.x == 10,
    {
        Self { x: &10 }
    }
}

/// A counter that owns its number.
pub struct Owner(pub i32);

impl Owner {
    /// Adds one to the owned number.
    pub fn add_one<'a>(&'a mut self)
        requires
            old(self).0 < i32::MAX,
        ensures
            final(self).0 == old(self).0 + 1,
    {
        self.0 += 1;
    }
}

/// Adds one through a mutable reference.
pub fn add_one<'a>(x: &'a mut i32)
    requires
        *old(x) < i32::MAX,
    ensures
        *final(x) == *old(x) + 1,
{
    *x += 1;
}

/// Hands the first borrow back and ignores the second.
pub fn pass_x<'a, 'b>(x: &'a i32, _y: &'b i32) -> (r: &'a i32)
    ensures
        r == x,
{
    x
}

/// The longer-lived borrow may stand in for the shorter one.
pub fn choose_first<'a: 'b, 'b>(first: &'a i32, _second: &'b i32) -> (r: &'b i32)
    ensures
        *r == *first,
{
    first
}

/// Passes a borrow through, lifetime elided.
pub fn elided_pass(x: &i32) -> (r: &i32)
    ensures
        r == x,
{
    x
}

/// Passes a borrow through, lifetime written out.
pub fn annotated_pass<'a>(x: &'a i32) -> (r: &'a i32)
    ensures
        r == x,
{
    x
}

/// A number that lives as long as the program.
pub const NUM: i32 = 18;

/// Hands out a borrow of the constant, coerced to the caller's lifetime.
pub fn coerce_static<'a>(_x: &'a i32) -> (r: &'a i32)
    ensures
        *r == 18,
{
    &NUM
}

/// A lifetime parameter that nothing in the body constrains.
pub fn failed_borrow<'a>() {
    let _x: i32 = 12;
}

} // verus!
