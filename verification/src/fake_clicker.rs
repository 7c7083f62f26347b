//! The deterministic part of the simulated device.
//!
//! The simulator alternates between `Rk` and `Freq` mode based on the wall
//! clock, switching every `half_cycle_secs` seconds, and draws each value
//! from a Normal distribution. Drawing the floating-point sample lives with
//! the caller; the mode selection is plain arithmetic and is verified here.
use vstd::prelude::*;

verus! {

/// Error type of the simulated device: it never fails.
#[derive(Clone, Copy, Debug, PartialEq, Eq)]
pub struct NoError;

/// Which mode the simulated device is in after `elapsed_secs` seconds:
/// `true` means `Rk`, `false` means `Freq`. The device starts in `Rk` mode
/// and flips every `half_cycle_secs` seconds.
pub open spec fn spec_fake_mode_is_rk(elapsed_secs: u64, half_cycle_secs: u64) -> bool
    recommends
        half_cycle_secs > 0,
{
    (elapsed_secs / half_cycle_secs) % 2 == 0
}

pub fn fake_mode_is_rk(elapsed_secs: u64, half_cycle_secs: u64) -> (r: bool)
    requires
        half_cycle_secs > 0,
    ensures
        r == spec_fake_mode_is_rk(elapsed_secs, half_cycle_secs),
{
    (elapsed_secs / half_cycle_secs) % 2 == 0
}

} // verus!
