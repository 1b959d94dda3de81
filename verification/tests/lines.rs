//! The exact console lines: decimal rendering, the host line, the module
//! line, and the plan of a whole host run.

use fiblib::{iterative, recursive, text, Variant};

#[test]
fn decimal_rendering() {
    assert_eq!(text::dec_string(0), "0");
    assert_eq!(text::dec_string(7), "7");
    assert_eq!(text::dec_string(10), "10");
    assert_eq!(text::dec_string(909), "909");
    assert_eq!(text::dec_string(28657), "28657");
    assert_eq!(text::dec_string(u64::MAX), "18446744073709551615");
}

#[test]
fn host_line_format() {
    assert_eq!(text::host_line(0, 0), "fib(0) = 0");
    assert_eq!(text::host_line(2, 1), "fib(2) = 1");
    assert_eq!(text::host_line(100, 12345), "fib(100) = 12345");
}

#[test]
fn module_line_format() {
    assert_eq!(
        text::module_line(0, 21, 10946),
        "[Rust Fibonacci Library v0] fib(21) = 10946"
    );
    assert_eq!(
        text::module_line(2, 23, 28657),
        "[Rust Fibonacci Library v2] fib(23) = 28657"
    );
}

#[test]
fn printfib_line_recursive() {
    assert_eq!(
        recursive::printfib_line(10),
        "[Rust Fibonacci Library v0] fib(10) = 55"
    );
}

#[test]
fn printfib_line_iterative() {
    assert_eq!(
        iterative::printfib_line(21),
        "[Rust Fibonacci Library v2] fib(21) = 10946"
    );
}

#[test]
fn printfib_line_names_the_linked_version() {
    assert!(Variant::Recursive.printfib_line(5).contains("v0"));
    assert!(Variant::Iterative.printfib_line(5).contains("v2"));
}

#[test]
fn host_run_prints_three_pairs_recursive() {
    let lines = Variant::Recursive.host_lines();
    assert_eq!(lines.len(), 6);
    assert_eq!(lines[0], "fib(0) = 0");
    assert_eq!(lines[1], "[Rust Fibonacci Library v0] fib(21) = 10946");
    assert_eq!(lines[2], "fib(1) = 1");
    assert_eq!(lines[3], "[Rust Fibonacci Library v0] fib(22) = 17711");
    assert_eq!(lines[4], "fib(2) = 1");
    assert_eq!(lines[5], "[Rust Fibonacci Library v0] fib(23) = 28657");
}

#[test]
fn host_run_prints_three_pairs_iterative() {
    let lines = Variant::Iterative.host_lines();
    assert_eq!(lines.len(), 6);
    assert_eq!(lines[0], "fib(0) = 0");
    assert_eq!(lines[1], "[Rust Fibonacci Library v2] fib(21) = 10946");
    assert_eq!(lines[2], "fib(1) = 1");
    assert_eq!(lines[3], "[Rust Fibonacci Library v2] fib(22) = 17711");
    assert_eq!(lines[4], "fib(2) = 1");
    assert_eq!(lines[5], "[Rust Fibonacci Library v2] fib(23) = 28657");
}
