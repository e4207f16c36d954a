//! High-resolution timer over the platform clock.
//!
//! Time acquisition is an external collaborator of this core: nothing is
//! assumed about the readings beyond what the platform documents, so both
//! operations are trusted wrappers with no promised value.

use vstd::prelude::*;

verus! {

#[verifier::external_type_specification]
#[verifier::external_body]
pub struct ExInstant(std::time::Instant);

/// Measures elapsed time from the moment of construction.
pub struct HiResTimer {
    start: std::time::Instant,
}

impl HiResTimer {
    /// Relies on `std::time::Instant::now` to capture a reading of the
    /// monotonic clock; nothing is assumed of its value.
    #[verifier::external_body]
    pub fn new() -> (r: Self) {
        HiResTimer { start: std::time::Instant::now() }
    }

    /// Relies on `std::time::Instant::elapsed` for the time since the start
    /// reading, converted to whole nanoseconds; nothing is assumed of the
    /// count.
    #[verifier::external_body]
    pub fn elapsed_ns(&self) -> (r: u64) {
        self.start.elapsed().as_nanos() as u64
    }
}

} // verus!
