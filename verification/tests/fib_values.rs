//! The numeric behaviour of the two module variants.

use fiblib::{iterative, recursive, Variant};

#[test]
fn seed_values_recursive() {
    assert_eq!(recursive::fib(0), 0);
    assert_eq!(recursive::fib(1), 1);
    assert_eq!(recursive::fib(2), 1);
    assert_eq!(recursive::fib(5), 5);
    assert_eq!(recursive::fib(10), 55);
}

#[test]
fn seed_values_iterative() {
    assert_eq!(iterative::fib(0), 0);
    assert_eq!(iterative::fib(1), 1);
    assert_eq!(iterative::fib(2), 1);
    assert_eq!(iterative::fib(5), 5);
    assert_eq!(iterative::fib(10), 55);
}

#[test]
fn variants_agree_on_small_indices() {
    for n in 0..=30i64 {
        assert_eq!(recursive::fib(n), iterative::fib(n));
    }
}

#[test]
fn iterative_boundary_below_two() {
    // The loop is skipped for indices at or below one: zero comes back at
    // index zero, and the index itself comes back at index one.
    assert_eq!(iterative::fib(0), 0);
    assert_eq!(iterative::fib(1), 1);
}

#[test]
fn negative_indices_come_straight_back() {
    assert_eq!(recursive::fib(-5), -5);
    assert_eq!(iterative::fib(-5), -5);
}

#[test]
fn iterative_reaches_the_largest_index_that_fits() {
    assert_eq!(iterative::fib(92), 7_540_113_804_746_346_429);
    assert_eq!(fiblib::math::MAX_FIB_INDEX, 92);
}

#[test]
fn version_constants() {
    assert_eq!(recursive::VERSION, 0);
    assert_eq!(iterative::VERSION, 2);
    assert_eq!(Variant::Recursive.version(), 0);
    assert_eq!(Variant::Iterative.version(), 2);
}

#[test]
fn variant_dispatch_matches_the_modules() {
    assert_eq!(Variant::Recursive.fib(12), recursive::fib(12));
    assert_eq!(Variant::Iterative.fib(40), iterative::fib(40));
}
