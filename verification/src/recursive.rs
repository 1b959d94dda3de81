//! The recursive module variant: naive double recursion, exponential time,
//! suitable for small indices.

use crate::math::{lemma_fib_fits_i64, MAX_FIB_INDEX};
use crate::text::{module_line, module_line_rep};
use vstd::prelude::*;

verus! {

/// The version tag this variant reports.
pub const VERSION: u16 = 0;

/// What the recursive algorithm computes: the recurrence applied as written,
/// with any index below two handed straight back.
pub open spec fn fib_rec(n: int) -> int
    decreases n,
{
    if n < 2 {
        n
    } else {
        fib_rec(n - 1) + fib_rec(n - 2)
    }
}

/// On indices at or above zero the algorithm agrees with the Fibonacci
/// sequence.
pub proof fn lemma_fib_rec_is_fib(n: int)
    requires
        0 <= n,
    ensures
        fib_rec(n) == crate::math::fib(n),
    decreases n,
{
    if n >= 2 {
        lemma_fib_rec_is_fib(n - 1);
        lemma_fib_rec_is_fib(n - 2);
    }
}

/// The algorithm itself, shared by the two exported functions.
fn fibalgo(value: i64) -> (r: i64)
    requires
        value <= MAX_FIB_INDEX,
    ensures
        r as int == fib_rec(value as int),
    decreases value,
{
    if value < 2 {
        value
    } else {
        let a = fibalgo(value - 1);
        let b = fibalgo(value - 2);
        proof {
            lemma_fib_rec_is_fib(value - 1);
            lemma_fib_rec_is_fib(value - 2);
            lemma_fib_fits_i64(value as int);
        }
        a + b
    }
}

/// The exported computation: the `value`-th Fibonacci number.
pub fn fib(value: i64) -> (r: i64)
    requires
        value <= MAX_FIB_INDEX,
    ensures
        r as int == fib_rec(value as int),
{
    fibalgo(value)
}

/// The line this variant emits for `value`: it recomputes the same function
/// and tags the line with this variant's version.
pub fn printfib_line(value: i64) -> (s: String)
    requires
        0 <= value <= MAX_FIB_INDEX,
    ensures
        s@ == module_line_rep(VERSION as int, value as int, fib_rec(value as int)),
{
    let r = fibalgo(value);
    proof {
        lemma_fib_rec_is_fib(value as int);
        lemma_fib_fits_i64(value as int);
    }
    module_line(VERSION, value as u64, r as u64)
}

} // verus!
