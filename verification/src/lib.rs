//! A small Fibonacci computation library built from interchangeable module
//! variants, together with the host driver's line planning.
//!
//! Two variants implement the same numeric contract (one by naive double
//! recursion, one by linear accumulation over a rolling pair) and are proved
//! to agree on every index. The exact console lines that a host prints are
//! built and specified here as well, character by character; the printing
//! itself is left to the surrounding program.

pub mod host;
pub mod iterative;
pub mod math;
pub mod recursive;
pub mod text;

pub use host::Variant;
