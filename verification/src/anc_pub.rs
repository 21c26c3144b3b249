//! Feedback to the base station: what the arbitration reports each cycle,
//! and how it is put on the wire.

use vstd::prelude::*;
use crate::propulsion_adapter::LoopState;

verus! {

/// The feedback of one arbitration cycle.
#[derive(Debug, Clone, Copy, PartialEq, Eq)]
pub struct AncPubPayload {
    pub e_stop_trig_fdbk: bool,
    pub loop_mode_fdbk: LoopState,
    pub distance: Option<i64>,
}

/// Whether an obstacle triggered the emergency stop: 1 if so, else 0.
#[derive(Debug, Clone, Copy, PartialEq, Eq)]
pub struct ObstacleDetected(pub u8);

/// The distance to the obstacle in fixed-point centimetres.
#[derive(Debug, Clone, Copy, PartialEq, Eq)]
pub struct Distance(pub i64);

/// Turns the feedback into the two values that are published.
#[derive(Debug, Clone, Copy, PartialEq, Eq)]
pub struct AncPub {}

impl AncPub {
    /// The published values for a feedback: the obstacle flag as a number,
    /// and the distance where there is one.
    pub open spec fn spec_publish(feedback: AncPubPayload) -> (ObstacleDetected, Option<Distance>) {
        (
            ObstacleDetected(
                if feedback.e_stop_trig_fdbk {
                    1u8
                } else {
                    0u8
                },
            ),
            match feedback.distance {
                Some(d) => Some(Distance(d)),
                None => None,
            },
        )
    }

    /// One cycle: nothing is published without a feedback.
    pub fn process(&self, feedback: Option<AncPubPayload>) -> (out: Option<
        (ObstacleDetected, Option<Distance>),
    >)
        ensures
            out == match feedback {
                Some(f) => Some(Self::spec_publish(f)),
                None => None,
            },
    {
        match feedback {
            Some(f) => {
                let obstacle = if f.e_stop_trig_fdbk {
                    ObstacleDetected(1)
                } else {
                    ObstacleDetected(0)
                };
                let distance = match f.distance {
                    Some(d) => Some(Distance(d)),
                    None => None,
                };
                Some((obstacle, distance))
            },
            None => None,
        }
    }
}

} // verus!
