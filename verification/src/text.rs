//! Verified rendering of the console lines: decimal digits and the exact
//! character sequence of the host line and of the module line.

use vstd::prelude::*;

verus! {

/// The character for a single decimal digit.
pub open spec fn digit_char(d: int) -> char {
    if d == 0 {
        '0'
    } else if d == 1 {
        '1'
    } else if d == 2 {
        '2'
    } else if d == 3 {
        '3'
    } else if d == 4 {
        '4'
    } else if d == 5 {
        '5'
    } else if d == 6 {
        '6'
    } else if d == 7 {
        '7'
    } else if d == 8 {
        '8'
    } else {
        '9'
    }
}

/// The decimal digits of a non-negative number, most significant first,
/// with no leading zero except for the number zero itself.
pub open spec fn dec_rep(n: int) -> Seq<char>
    recommends
        0 <= n,
    decreases n,
{
    if n < 10 {
        seq![digit_char(n)]
    } else {
        dec_rep(n / 10) + seq![digit_char(n % 10)]
    }
}

/// The host's own line for one index and its Fibonacci value.
pub open spec fn host_line_rep(i: int, v: int) -> Seq<char> {
    "fib("@ + dec_rep(i) + ") = "@ + dec_rep(v)
}

/// The line a module variant emits: its version tag, the index it was
/// handed, and the value it computed.
pub open spec fn module_line_rep(version: int, i: int, v: int) -> Seq<char> {
    "[Rust Fibonacci Library v"@ + dec_rep(version) + "] fib("@ + dec_rep(i) + ") = "@ + dec_rep(v)
}

/// A one-character string slice for the digit `d`.
fn digit_str(d: u64) -> (s: &'static str)
    requires
        d < 10,
    ensures
        s@ == seq![digit_char(d as int)],
{
    if d == 0 {
        proof {
            reveal_strlit("0");
        }
        "0"
    } else if d == 1 {
        proof {
            reveal_strlit("1");
        }
        "1"
    } else if d == 2 {
        proof {
            reveal_strlit("2");
        }
        "2"
    } else if d == 3 {
        proof {
            reveal_strlit("3");
        }
        "3"
    } else if d == 4 {
        proof {
            reveal_strlit("4");
        }
        "4"
    } else if d == 5 {
        proof {
            reveal_strlit("5");
        }
        "5"
    } else if d == 6 {
        proof {
            reveal_strlit("6");
        }
        "6"
    } else if d == 7 {
        proof {
            reveal_strlit("7");
        }
        "7"
    } else if d == 8 {
        proof {
            reveal_strlit("8");
        }
        "8"
    } else {
        proof {
            reveal_strlit("9");
        }
        "9"
    }
}

/// Renders `n` in decimal, most significant digit first.
pub fn dec_string(n: u64) -> (s: String)
    ensures
        s@ == dec_rep(n as int),
    decreases n,
{
    if n < 10 {
        String::from_str(digit_str(n))
    } else {
        let mut s = dec_string(n / 10);
        s.append(digit_str(n % 10));
        s
    }
}

/// Builds the host line `fib(<i>) = <v>`.
pub fn host_line(i: u64, v: u64) -> (s: String)
    ensures
        s@ == host_line_rep(i as int, v as int),
{
    let mut s = String::new();
    s.append("fib(");
    let index = dec_string(i);
    s.append(index.as_str());
    s.append(") = ");
    let value = dec_string(v);
    s.append(value.as_str());
    proof {
        assert(s@ =~= host_line_rep(i as int, v as int));
    }
    s
}

/// Builds the module line `[Rust Fibonacci Library v<version>] fib(<i>) = <v>`.
pub fn module_line(version: u16, i: u64, v: u64) -> (s: String)
    ensures
        s@ == module_line_rep(version as int, i as int, v as int),
{
    let mut s = String::new();
    s.append("[Rust Fibonacci Library v");
    let tag = dec_string(version as u64);
    s.append(tag.as_str());
    s.append("] fib(");
    let index = dec_string(i);
    s.append(index.as_str());
    s.append(") = ");
    let value = dec_string(v);
    s.append(value.as_str());
    proof {
        assert(s@ =~= module_line_rep(version as int, i as int, v as int));
    }
    s
}

} // verus!
