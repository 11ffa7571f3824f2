//! The estimate of available memory that advisories are measured against.

use vstd::prelude::*;

verus! {

/// Bytes of memory assumed to be available: a fixed, conservative 2 GiB.
pub const ASSUMED_AVAILABLE_MEMORY: u64 = 2147483648;

/// The amount of memory, in bytes, that a whole-file read may count on.
///
/// No operating system query is made; the figure is a lower bound that a
/// caller may replace with a measured one.
pub fn get_available_memory() -> (bytes: u64)
    ensures
        bytes == ASSUMED_AVAILABLE_MEMORY,
        bytes == 2 * 1024 * 1024 * 1024,
{
    ASSUMED_AVAILABLE_MEMORY
}

} // verus!
