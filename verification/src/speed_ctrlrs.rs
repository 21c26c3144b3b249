//! The speed errors handed to the two wheel-speed controllers.

use vstd::prelude::*;

verus! {

/// The speed error of the left wheel.
#[derive(Debug, Clone, Copy, PartialEq, Eq)]
pub struct LmtrSpeedErrPayload {
    pub error: i64,
}

/// The speed error of the right wheel.
#[derive(Debug, Clone, Copy, PartialEq, Eq)]
pub struct RmtrSpeedErrPayload {
    pub error: i64,
}

} // verus!
