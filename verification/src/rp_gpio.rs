//! The level of one output pin.

use vstd::prelude::*;

verus! {

/// Whether the pin is driven high.
#[derive(Debug, Clone, Copy, PartialEq, Eq, Structural)]
pub struct RPGpioPayload {
    pub on: bool,
}

impl RPGpioPayload {
    /// The level as a number: 1 for high, 0 for low.
    pub open spec fn spec_level(self) -> u8 {
        if self.on {
            1
        } else {
            0
        }
    }

    /// The level as a number.
    pub fn level(self) -> (l: u8)
        ensures
            l == self.spec_level(),
    {
        if self.on {
            1
        } else {
            0
        }
    }
}

} // verus!
