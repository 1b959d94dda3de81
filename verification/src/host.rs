//! The host side: the interchangeable module variants behind one interface,
//! and the exact lines a host run prints.

use crate::iterative;
use crate::math::{lemma_fib_fits_i64, MAX_FIB_INDEX};
use crate::recursive;
use crate::text::{host_line, host_line_rep, module_line_rep};
use vstd::prelude::*;

verus! {

/// One interchangeable implementation of the Fibonacci computation contract,
/// chosen by the host through static configuration.
#[derive(Clone, Copy, Debug, PartialEq, Eq)]
pub enum Variant {
    Recursive,
    Iterative,
}

/// Both variants return the same value at every index: the rolling-pair
/// accumulation agrees with the naive double recursion everywhere, negative
/// indices included.
pub proof fn lemma_variants_agree(n: int)
    ensures
        recursive::fib_rec(n) == iterative::fib_iter(n),
{
    if n >= 2 {
        recursive::lemma_fib_rec_is_fib(n);
        iterative::lemma_fib_iter_is_fib(n);
    }
}

impl Variant {
    /// The version tag of the chosen variant.
    pub open spec fn spec_version(self) -> int {
        match self {
            Variant::Recursive => recursive::VERSION as int,
            Variant::Iterative => iterative::VERSION as int,
        }
    }

    /// What the chosen variant computes at index `n`.
    pub open spec fn spec_fib(self, n: int) -> int {
        match self {
            Variant::Recursive => recursive::fib_rec(n),
            Variant::Iterative => iterative::fib_iter(n),
        }
    }

    /// On indices at or above zero every variant agrees with the Fibonacci
    /// sequence.
    pub proof fn lemma_spec_fib_is_fib(self, n: int)
        requires
            0 <= n,
        ensures
            self.spec_fib(n) == crate::math::fib(n),
    {
        match self {
            Variant::Recursive => recursive::lemma_fib_rec_is_fib(n),
            Variant::Iterative => iterative::lemma_fib_iter_is_fib(n),
        }
    }

    /// The version constant the chosen variant exports.
    pub fn version(self) -> (v: u16)
        ensures
            v as int == self.spec_version(),
    {
        match self {
            Variant::Recursive => recursive::VERSION,
            Variant::Iterative => iterative::VERSION,
        }
    }

    /// The `value`-th Fibonacci number, by whichever algorithm was chosen.
    pub fn fib(self, value: i64) -> (r: i64)
        requires
            value <= MAX_FIB_INDEX,
        ensures
            r as int == self.spec_fib(value as int),
    {
        match self {
            Variant::Recursive => recursive::fib(value),
            Variant::Iterative => iterative::fib(value),
        }
    }

    /// The module line for `value`, as the chosen variant emits it.
    pub fn printfib_line(self, value: i64) -> (s: String)
        requires
            0 <= value <= MAX_FIB_INDEX,
        ensures
            s@ == module_line_rep(self.spec_version(), value as int, self.spec_fib(value as int)),
    {
        match self {
            Variant::Recursive => recursive::printfib_line(value),
            Variant::Iterative => iterative::printfib_line(value),
        }
    }

    /// The lines of one host run: three pairs, one pair per iteration. Each
    /// pair holds the host's own line for the indices 0, 1 and 2 in turn, and
    /// then the module line for the offset indices 21, 22 and 23.
    pub fn host_lines(self) -> (lines: Vec<String>)
        ensures
            lines@.len() == 6,
            lines@[0]@ == host_line_rep(0, self.spec_fib(0)),
            lines@[1]@ == module_line_rep(self.spec_version(), 21, self.spec_fib(21)),
            lines@[2]@ == host_line_rep(1, self.spec_fib(1)),
            lines@[3]@ == module_line_rep(self.spec_version(), 22, self.spec_fib(22)),
            lines@[4]@ == host_line_rep(2, self.spec_fib(2)),
            lines@[5]@ == module_line_rep(self.spec_version(), 23, self.spec_fib(23)),
    {
        let mut lines: Vec<String> = Vec::new();
        let mut i: i64 = 0;
        while i < 3
            invariant
                0 <= i <= 3,
                lines@.len() == 2 * i,
                forall|k: int|
                    0 <= k < i ==> #[trigger] lines@[2 * k]@ == host_line_rep(
                        k,
                        self.spec_fib(k),
                    ),
                forall|k: int|
                    0 <= k < i ==> #[trigger] lines@[2 * k + 1]@ == module_line_rep(
                        self.spec_version(),
                        21 + k,
                        self.spec_fib(21 + k),
                    ),
            decreases 3 - i,
        {
            proof {
                self.lemma_spec_fib_is_fib(i as int);
                lemma_fib_fits_i64(i as int);
            }
            let v = self.fib(i);
            lines.push(host_line(i as u64, v as u64));
            lines.push(self.printfib_line(21 + i));
            i = i + 1;
        }
        proof {
            assert(lines@[2 * 0 as int]@ == host_line_rep(0, self.spec_fib(0)));
            assert(lines@[2 * 1 as int]@ == host_line_rep(1, self.spec_fib(1)));
            assert(lines@[2 * 2 as int]@ == host_line_rep(2, self.spec_fib(2)));
            assert(lines@[2 * 0 as int + 1]@ == module_line_rep(self.spec_version(), 21, self.spec_fib(21)));
            assert(lines@[2 * 1 as int + 1]@ == module_line_rep(self.spec_version(), 22, self.spec_fib(22)));
            assert(lines@[2 * 2 as int + 1]@ == module_line_rep(self.spec_version(), 23, self.spec_fib(23)));
        }
        lines
    }
}

} // verus!
