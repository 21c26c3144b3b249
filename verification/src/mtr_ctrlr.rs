//! Feeds the heading error to a motor's controller, in closed loop only.

use vstd::prelude::*;
use crate::panner_adapter::MissingInput;
use crate::propulsion_adapter::{LoopState, PropulsionAdapterOutputPayload};

verus! {

/// The heading error for the left motor's controller.
#[derive(Debug, Clone, Copy, PartialEq, Eq)]
pub struct LmtrCtrlrPayload {
    pub weighted_err: i64,
}

/// The heading error for the right motor's controller.
#[derive(Debug, Clone, Copy, PartialEq, Eq)]
pub struct RmtrCtrlrPayload {
    pub weighted_err: i64,
}

/// Feeds a motor's controller.
#[derive(Debug, Clone, Copy, PartialEq, Eq)]
pub struct MtrCtrlr {}

impl MtrCtrlr {
    /// What a cycle hands to the controller: the heading error of the fused
    /// state in closed loop, nothing in open loop.
    pub open spec fn spec_error(input: PropulsionAdapterOutputPayload) -> Option<i64> {
        match input.loop_state {
            LoopState::Closed => Some(input.weighted_error),
            LoopState::Open => None,
        }
    }

    /// A feeder.
    pub fn new() -> (m: Self) {
        MtrCtrlr {  }
    }

    /// One cycle: an error without a fused state, else what is handed to
    /// the controller.
    pub fn process(&self, input: Option<PropulsionAdapterOutputPayload>) -> (out: Result<
        Option<i64>,
        MissingInput,
    >)
        ensures
            out == match input {
                Some(msg) => Ok::<Option<i64>, MissingInput>(Self::spec_error(msg)),
                None => Err::<Option<i64>, MissingInput>(MissingInput {  }),
            },
    {
        match input {
            Some(msg) => match msg.loop_state {
                LoopState::Closed => Ok(Some(msg.weighted_error)),
                LoopState::Open => Ok(None),
            },
            None => Err(MissingInput {  }),
        }
    }
}

} // verus!
