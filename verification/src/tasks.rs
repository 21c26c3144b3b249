//! Simple tasks that drive and pan by the distance reading alone.

use vstd::prelude::*;
use crate::cam_pan::{CameraPanningPayload, PositionCommand};
use crate::fixed::SCALE;
use crate::powermon::Ina219Payload;
use crate::propulsion::{PropulsionPayload, WheelDirection};

verus! {

/// An obstacle nearer than this, in fixed-point centimetres, is near.
pub const NEAR_OBSTACLE_CM: i64 = 10_000_000;

/// The speed of the right wheel while jogging.
pub const JOG_RIGHT_SPEED: i64 = 10_000;

/// An obstacle is near; without a distance value it counts as near.
pub open spec fn is_obstacle_near(distance: Option<i64>) -> bool {
    match distance {
        Some(d) => d < NEAR_OBSTACLE_CM,
        None => true,
    }
}

/// Decides whether an obstacle is near.
pub fn obstacle_near(distance: Option<i64>) -> (near: bool)
    ensures
        near == is_obstacle_near(distance),
{
    match distance {
        Some(d) => d < NEAR_OBSTACLE_CM,
        None => true,
    }
}

/// Drives forward until an obstacle is near.
#[derive(Debug, Clone, Copy, PartialEq, Eq)]
pub struct Jogger {}

/// Pans the camera to the left while an obstacle is near.
#[derive(Debug, Clone, Copy, PartialEq, Eq)]
pub struct Panner {}

/// Takes the power monitor's reading and does nothing with it.
#[derive(Debug, Clone, Copy, PartialEq, Eq)]
pub struct Dummy {}

impl Jogger {
    /// The command for a distance: all-stop where an obstacle is near, else
    /// both wheels forward, the left at full speed.
    pub open spec fn spec_command(distance: Option<i64>) -> PropulsionPayload {
        if is_obstacle_near(distance) {
            PropulsionPayload::spec_all_stop()
        } else {
            PropulsionPayload {
                left_enable: true,
                right_enable: true,
                left_speed: SCALE,
                right_speed: JOG_RIGHT_SPEED,
                left_direction: WheelDirection::Forward,
                right_direction: WheelDirection::Forward,
            }
        }
    }

    /// A jogger.
    pub fn new() -> (j: Self) {
        Jogger {  }
    }

    /// One cycle.
    pub fn process(&self, distance: Option<i64>) -> (cmd: PropulsionPayload)
        ensures
            cmd == Self::spec_command(distance),
            is_obstacle_near(distance) ==> cmd == PropulsionPayload::spec_all_stop(),
            cmd.is_safe(SCALE as int),
    {
        if obstacle_near(distance) {
            PropulsionPayload::all_stop()
        } else {
            PropulsionPayload {
                left_enable: true,
                right_enable: true,
                left_speed: SCALE,
                right_speed: JOG_RIGHT_SPEED,
                left_direction: WheelDirection::Forward,
                right_direction: WheelDirection::Forward,
            }
        }
    }
}

impl Panner {
    /// A panner.
    pub fn new() -> (p: Self) {
        Panner {  }
    }

    /// One cycle: look left where an obstacle is near, else to the front.
    pub fn process(&self, distance: Option<i64>) -> (cmd: CameraPanningPayload)
        ensures
            cmd.pos_cmd == if is_obstacle_near(distance) {
                PositionCommand::Left
            } else {
                PositionCommand::Front
            },
    {
        if obstacle_near(distance) {
            CameraPanningPayload { pos_cmd: PositionCommand::Left }
        } else {
            CameraPanningPayload { pos_cmd: PositionCommand::Front }
        }
    }
}

impl Dummy {
    /// A sink.
    pub fn new() -> (d: Self) {
        Dummy {  }
    }

    /// One cycle: the reading is dropped.
    pub fn process(&self, _input: Option<Ina219Payload>) {
    }
}

} // verus!
