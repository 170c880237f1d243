//! Application-wide constants.
use vstd::prelude::*;

verus! {

/// Data points older than this many milliseconds (relative to the most
/// recent harvest) are considered stale and are evicted by a clean pass.
pub const STALE_MAX_MILLISECONDS: u64 = 600000;

} // verus!
