//! Fixed parameters of the gauge: CAN identifiers, screen geometry and timing.

pub mod canbus_config;
pub mod display_config;

use vstd::prelude::*;

verus! {

/// Age, in milliseconds, after which a received value is no longer shown.
pub const LAST_RECEIVED_THRESHOLD_MS: u32 = 1000;

} // verus!
