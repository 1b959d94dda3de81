//! The iterative module variant: linear-time accumulation over a rolling
//! pair of values.

use crate::math::{lemma_fib_fits_i64, MAX_FIB_INDEX};
use crate::text::{module_line, module_line_rep};
use vstd::prelude::*;

verus! {

/// The version tag this variant reports.
pub const VERSION: u16 = 2;

/// The rolling pair after `k` accumulation steps, starting from `(0, 1)`.
pub open spec fn fib_pair(k: int) -> (int, int)
    decreases k,
{
    if k <= 0 {
        (0, 1)
    } else {
        (fib_pair(k - 1).1, fib_pair(k - 1).0 + fib_pair(k - 1).1)
    }
}

/// What the iterative algorithm computes: any index below two is handed
/// straight back untouched, a larger index gets `index - 1` rolling steps.
pub open spec fn fib_iter(n: int) -> int {
    if n < 2 {
        n
    } else {
        fib_pair(n - 1).1
    }
}

/// After `k` steps the rolling pair holds the Fibonacci numbers at `k` and
/// `k + 1`.
pub proof fn lemma_fib_pair(k: int)
    requires
        0 <= k,
    ensures
        fib_pair(k).0 == crate::math::fib(k),
        fib_pair(k).1 == crate::math::fib(k + 1),
    decreases k,
{
    if k > 0 {
        lemma_fib_pair(k - 1);
    }
}

/// On indices at or above zero the algorithm agrees with the Fibonacci
/// sequence.
pub proof fn lemma_fib_iter_is_fib(n: int)
    requires
        0 <= n,
    ensures
        fib_iter(n) == crate::math::fib(n),
{
    if n >= 2 {
        lemma_fib_pair(n - 1);
    }
}

/// At index zero the iterative variant returns zero. This does not extend to
/// index one: the loop is skipped there as well, but the index itself (one,
/// not zero) comes back, in agreement with the recursive variant.
pub proof fn lemma_fib_iter_zero_at_bottom(n: int)
    requires
        0 <= n <= 1,
        n != 1,
    ensures
        fib_iter(n) == 0,
{
}

/// The algorithm itself, shared by the two exported functions.
fn fibalgo(value: i64) -> (r: i64)
    requires
        value <= MAX_FIB_INDEX,
    ensures
        r as int == fib_iter(value as int),
{
    let mut l: i64 = 0;
    let mut p: i64 = 1;
    let mut n: i64 = value;
    let mut i: i64 = 1;
    while i < value
        invariant
            value <= MAX_FIB_INDEX,
            1 <= i,
            value >= 2 ==> i <= value,
            value < 2 ==> i == 1,
            l as int == crate::math::fib(i - 1),
            p as int == crate::math::fib(i as int),
            n as int == if i == 1 {
                value as int
            } else {
                crate::math::fib(i as int)
            },
        decreases value - i,
    {
        proof {
            lemma_fib_fits_i64(i + 1);
            assert(crate::math::fib(i + 1) == crate::math::fib(i as int) + crate::math::fib(i - 1));
        }
        n = l + p;
        l = p;
        p = n;
        i = i + 1;
    }
    proof {
        if value >= 2 {
            lemma_fib_pair(value - 1);
        }
    }
    n
}

/// The exported computation: the `value`-th Fibonacci number.
pub fn fib(value: i64) -> (r: i64)
    requires
        value <= MAX_FIB_INDEX,
    ensures
        r as int == fib_iter(value as int),
{
    fibalgo(value)
}

/// The line this variant emits for `value`: it recomputes the same function
/// and tags the line with this variant's version.
pub fn printfib_line(value: i64) -> (s: String)
    requires
        0 <= value <= MAX_FIB_INDEX,
    ensures
        s@ == module_line_rep(VERSION as int, value as int, fib_iter(value as int)),
{
    let r = fibalgo(value);
    proof {
        lemma_fib_iter_is_fib(value as int);
        lemma_fib_fits_i64(value as int);
    }
    module_line(VERSION, value as u64, r as u64)
}

} // verus!
