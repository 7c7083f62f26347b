//! The value type produced by a device read.
//!
//! The instrument alternates between reporting a dynamic resistance (`Rk`)
//! and a frequency (`Freq`). Sample values are carried as fixed-point
//! integers; the transport layer decides the scale and converts the raw
//! device encoding before a reading enters this library.
use vstd::prelude::*;

verus! {

/// One value read from the device, tagged with the mode it was measured in.
#[derive(Clone, Copy, Debug, PartialEq, Eq)]
pub enum MeasureResult {
    Rk(i64),
    Freq(i64),
}

impl MeasureResult {
    /// The sample value, regardless of the mode tag.
    pub open spec fn spec_value(self) -> i64 {
        match self {
            MeasureResult::Rk(v) => v,
            MeasureResult::Freq(v) => v,
        }
    }

    /// Whether this reading was measured in frequency mode.
    pub open spec fn spec_is_freq(self) -> bool {
        self is Freq
    }

    pub fn value(&self) -> (r: i64)
        ensures
            r == self.spec_value(),
    {
        match self {
            MeasureResult::Rk(v) => *v,
            MeasureResult::Freq(v) => *v,
        }
    }

    pub fn is_freq(&self) -> (r: bool)
        ensures
            r == self.spec_is_freq(),
    {
        match self {
            MeasureResult::Rk(_) => false,
            MeasureResult::Freq(_) => true,
        }
    }
}

} // verus!
