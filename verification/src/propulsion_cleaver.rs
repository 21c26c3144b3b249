//! Hands the drive command of the arbitration on, alone.

use vstd::prelude::*;
use crate::propulsion::PropulsionPayload;

verus! {

/// Takes the drive command out of what the arbitration produced.
#[derive(Debug, Clone, Copy, PartialEq, Eq)]
pub struct PropulsionCleaver {}

impl PropulsionCleaver {
    /// A cleaver.
    pub fn new() -> (c: Self) {
        PropulsionCleaver {  }
    }

    /// One cycle: the command as it came, nothing without one.
    pub fn process(&self, input: Option<PropulsionPayload>) -> (out: Option<PropulsionPayload>)
        ensures
            out == input,
    {
        input
    }
}

} // verus!
