//! The classic divisibility game, with the word chosen for each number
//! pinned down exactly.

use vstd::prelude::*;

verus! {

/// What is said for one number.
#[derive(Debug, Clone, Copy, PartialEq, Eq, Structural)]
pub enum FizzBuzz {
    FizzBuzz,
    Fizz,
    Buzz,
    Number(u32),
}

/// The word the game assigns to `n`.
pub open spec fn fizzbuzz_word(n: u32) -> FizzBuzz {
    if n % 15 == 0 {
        FizzBuzz::FizzBuzz
    } else if n % 3 == 0 {
        FizzBuzz::Fizz
    } else if n % 5 == 0 {
        FizzBuzz::Buzz
    } else {
        FizzBuzz::Number(n)
    }
}

/// Whether `lhs` is divisible by `rhs`; nothing is divisible by zero.
pub fn is_divisible_by(lhs: u32, rhs: u32) -> (r: bool)
    ensures
        r == (rhs != 0 && lhs % rhs == 0),
{
    if rhs == 0 {
        return false;
    }
    lhs % rhs == 0
}

/// One number is odd exactly when its remainder by two is one.
pub fn is_odd(n: u32) -> (r: bool)
    ensures
        r == (n % 2 == 1),
{
    n % 2 == 1
}

/// The word for a single number.
pub fn fizzbuzz(n: u32) -> (r: FizzBuzz)
    ensures
        r == fizzbuzz_word(n),
{
    if is_divisible_by(n, 15) {
        FizzBuzz::FizzBuzz
    } else if is_divisible_by(n, 3) {
        FizzBuzz::Fizz
    } else if is_divisible_by(n, 5) {
        FizzBuzz::Buzz
    } else {
        FizzBuzz::Number(n)
    }
}

/// The words for `1` up to and including `n`, in order.
pub fn fizzbuzz_to(n: u32) -> (r: Vec<FizzBuzz>)
    ensures
        r@.len() == n,
        forall|i: int| 0 <= i < n ==> r@[i] == fizzbuzz_word((i + 1) as u32),
{
    let mut words: Vec<FizzBuzz> = Vec::new();
    let mut k: u32 = 0;
    while k < n
        invariant
            k <= n,
            words@.len() == k,
            forall|i: int| 0 <= i < k ==> words@[i] == fizzbuzz_word((i + 1) as u32),
        decreases n - k,
    {
        words.push(fizzbuzz(k + 1));
        k += 1;
    }
    words
}

/// The sum of the odd values among the squares `0^2 .. (n-1)^2` that lie
/// below `upper`.
pub open spec fn sum_of_odd_squares_below(n: nat, upper: int) -> int
    decreases n,
{
    if n == 0 {
        0
    } else {
        let k = n - 1;
        sum_of_odd_squares_below((n - 1) as nat, upper) + if k * k < upper && (k * k) % 2 == 1 {
            k * k
        } else {
            0
        }
    }
}

/// The total never shrinks as more squares are considered.
proof fn lemma_odd_square_sum_mono(n: nat, m: nat, upper: int)
    requires
        n <= m,
    ensures
        sum_of_odd_squares_below(n, upper) <= sum_of_odd_squares_below(m, upper),
    decreases m,
{
    if m > n {
        lemma_odd_square_sum_mono(n, (m - 1) as nat, upper);
        let k = m - 1;
        assert(k * k >= 0) by (nonlinear_arith);
    }
}

/// Once one square reaches the bound, no later square contributes.
proof fn lemma_odd_square_sum_stable(n: nat, m: nat, upper: int)
    requires
        n <= m,
        n * n >= upper,
    ensures
        sum_of_odd_squares_below(m, upper) == sum_of_odd_squares_below(n, upper),
    decreases m,
{
    if m > n {
        lemma_odd_square_sum_stable(n, (m - 1) as nat, upper);
        let k = (m - 1) as int;
        assert(k * k >= n * n) by (nonlinear_arith)
            requires
                k >= n >= 0,
        ;
    }
}

/// Adds up every odd square below the bound, walking the naturals until
/// the squares reach it.
pub fn sum_of_squared_odd_numbers(upper: u32) -> (acc: u32)
    requires
        sum_of_odd_squares_below(0x10000, upper as int) <= u32::MAX,
    ensures
        acc == sum_of_odd_squares_below(0x10000, upper as int),
{
    let mut acc: u32 = 0;
    let mut n: u32 = 0;
    loop
        invariant_except_break
            n <= 0x10000,
            acc == sum_of_odd_squares_below(n as nat, upper as int),
            sum_of_odd_squares_below(0x10000, upper as int) <= u32::MAX,
        ensures
            acc == sum_of_odd_squares_below(0x10000, upper as int),
        decreases 0x10000 - n,
    {
        proof {
            assert((n as int) * (n as int) <= 0x1_0000_0000) by (nonlinear_arith)
                requires
                    0 <= n <= 0x10000,
            ;
        }
        let n_squared: u64 = (n as u64) * (n as u64);
        if n_squared >= upper as u64 {
            proof {
                lemma_odd_square_sum_stable(n as nat, 0x10000, upper as int);
            }
            break ;
        }
        proof {
            assert(n < 0x10000) by (nonlinear_arith)
                requires
                    (n as int) * (n as int) < 0x1_0000_0000,
                    n >= 0,
            ;
        }
        let sq: u32 = n_squared as u32;
        if is_odd(sq) {
            proof {
                lemma_odd_square_sum_mono((n + 1) as nat, 0x10000, upper as int);
            }
            acc = acc + sq;
        }
        n = n + 1;
    }
    acc
}

} // verus!
