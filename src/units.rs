//! Units of the quantities that the library holds as integers.
use vstd::prelude::*;

verus! {

/// A real quantity in fixed point: the value times [`FIXED_ONE`].
pub type Fixed = i64;

/// The fixed-point representation of `1.0`: six decimal places.
pub const FIXED_ONE: i64 = 1_000_000;

/// Nanoseconds in a millisecond. Every time in this crate is a whole number
/// of nanoseconds.
pub const NANOS_PER_MILLI: u64 = 1_000_000;

} // verus!
