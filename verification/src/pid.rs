//! What a PID controller hands to the control tasks.

use vstd::prelude::*;

verus! {

/// The output of one PID controller in one cycle, each term a fixed-point
/// number.
#[derive(Debug, Clone, Copy, PartialEq, Eq)]
pub struct PIDControlOutputPayload {
    /// Proportional term.
    pub p: i64,
    /// Integral term.
    pub i: i64,
    /// Derivative term.
    pub d: i64,
    /// The controller's output.
    pub output: i64,
}

impl Default for PIDControlOutputPayload {
    fn default() -> (o: Self)
        ensures
            o == (PIDControlOutputPayload { p: 0, i: 0, d: 0, output: 0 }),
    {
        PIDControlOutputPayload { p: 0, i: 0, d: 0, output: 0 }
    }
}

} // verus!
