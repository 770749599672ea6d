//! Functions taken and returned as values, with the callee's contract
//! carried through `call_requires` and `call_ensures`.

use vstd::prelude::*;

verus! {

/// An ordinary function to pass around: the sum of two numbers.
pub fn function_add(a: u32, b: u32) -> (r: u32)
    requires
        a + b <= u32::MAX,
    ensures
        r == a + b,
{
    a + b
}

/// Calls a function that consumes itself.
pub fn apply<F: FnOnce()>(f: F)
    requires
        call_requires(f, ()),
    ensures
        call_ensures(f, (), ()),
{
    f();
}

/// Calls a function on three and hands back what it returned.
pub fn apply_to_3<F: Fn(i32) -> i32>(f: F) -> (r: i32)
    requires
        call_requires(f, (3,)),
    ensures
        call_ensures(f, (3,), r),
{
    f(3)
}

/// Calls a function that only borrows what it captured.
pub fn apply_mutable_borrow<F: Fn()>(f: F)
    requires
        call_requires(f, ()),
    ensures
        call_ensures(f, (), ()),
{
    f();
}

/// Calls whatever callable it is given.
pub fn call_me<F: Fn()>(f: F)
    requires
        call_requires(f, ()),
    ensures
        call_ensures(f, (), ()),
{
    f();
}

/// Calls a two-argument function on the given pair.
pub fn call_take_params<F>(f: F, a: u32, b: u32) -> (r: u32) where F: Fn(u32, u32) -> u32
    requires
        call_requires(f, (a, b)),
    ensures
        call_ensures(f, (a, b), r),
{
    f(a, b)
}

/// Returns an adding function; whatever it is called on, it returns the
/// sum.
pub fn create_fn_add() -> (f: impl Fn(u32, u32) -> u32)
    ensures
        forall|a: u32, b: u32| a + b <= u32::MAX ==> call_requires(f, (a, b)),
        forall|a: u32, b: u32, r: u32| call_ensures(f, (a, b), r) ==> r == a + b,
{
    |a: u32, b: u32| -> (r: u32)
        requires
            a + b <= u32::MAX,
        ensures
            r == a + b,
        {
            a + b
        }
}

/// Returns a one-shot function that appends its second string to its
/// first.
pub fn create_fn_append() -> (f: impl FnOnce(String, String) -> String)
    ensures
        forall|a: String, b: String| call_requires(f, (a, b)),
        forall|a: String, b: String, r: String| call_ensures(f, (a, b), r) ==> r@ == a@ + b@,
{
    |a: String, b: String| -> (r: String)
        ensures
            r@ == a@ + b@,
        {
            a.concat(b.as_str())
        }
}

} // verus!
