//! The remote operator's topics, merged into one drive intent.

use vstd::prelude::*;
use crate::cam_pan::PositionCommand;
use crate::propulsion::WheelDirection;
use crate::propulsion_adapter::{
    LoopState, SteerDirection, WorkOrRestState, ZenohTopicsAdapterOutputPayload,
};

verus! {

/// The open-loop speed for both wheels, a fixed-point number.
#[derive(Debug, Clone, Copy, PartialEq, Eq)]
pub struct OddOpenLoopSpeed(pub i64);

/// The loop mode: 0 is open, 1 is closed.
#[derive(Debug, Clone, Copy, PartialEq, Eq)]
pub struct OddLoopMode(pub u8);

/// The drive state: 0 is at rest, 1 is forward, 2 is reverse.
#[derive(Debug, Clone, Copy, PartialEq, Eq)]
pub struct OddOpenLoopDriveState(pub u8);

/// The camera position: 0 is front, 1 is left, 2 is right.
#[derive(Debug, Clone, Copy, PartialEq, Eq)]
pub struct OddOpenLoopForcepan(pub u8);

/// The steering command: 0 is free, 1 is hard left, 2 is hard right.
#[derive(Debug, Clone, Copy, PartialEq, Eq)]
pub struct OddOpenLoopSteerCmd(pub u8);

/// Merges the five topics.
#[derive(Debug, Clone, Copy, PartialEq, Eq)]
pub struct ZSrcMerger {}

/// The loop mode that a number stands for; a number that stands for none is
/// read as open loop.
pub open spec fn spec_loop_state(code: u8) -> LoopState {
    if code == 1 {
        LoopState::Closed
    } else {
        LoopState::Open
    }
}

/// The wheel direction that a drive state stands for; a number that stands
/// for none is read as a stop.
pub open spec fn spec_drive_direction(code: u8) -> WheelDirection {
    if code == 1 {
        WheelDirection::Forward
    } else if code == 2 {
        WheelDirection::Reverse
    } else {
        WheelDirection::Stop
    }
}

/// The steering command that a number stands for; a number that stands for
/// none is read as free.
pub open spec fn spec_steer_direction(code: u8) -> SteerDirection {
    if code == 1 {
        SteerDirection::HardLeft
    } else if code == 2 {
        SteerDirection::HardRight
    } else {
        SteerDirection::Free
    }
}

/// The drive intent that the five topics make up. The wheels are enabled,
/// and the rover is at work, exactly when the drive state is forward or
/// reverse; both wheels get the one speed and the one direction.
pub open spec fn spec_merge(
    speed: OddOpenLoopSpeed,
    loop_mode: OddLoopMode,
    drive_state: OddOpenLoopDriveState,
    forcepan: OddOpenLoopForcepan,
    steer_cmd: OddOpenLoopSteerCmd,
) -> ZenohTopicsAdapterOutputPayload {
    let driving = drive_state.0 == 1 || drive_state.0 == 2;
    ZenohTopicsAdapterOutputPayload {
        loop_state: spec_loop_state(loop_mode.0),
        left_enable: driving,
        right_enable: driving,
        openloop_left_speed: speed.0,
        openloop_right_speed: speed.0,
        left_direction: spec_drive_direction(drive_state.0),
        right_direction: spec_drive_direction(drive_state.0),
        steer_direction: spec_steer_direction(steer_cmd.0),
        work_or_rest_state: if driving {
            WorkOrRestState::AtWork
        } else {
            WorkOrRestState::AtRest
        },
        camera_position: PositionCommand::spec_from_u8(forcepan.0),
    }
}

impl ZSrcMerger {
    /// A merger.
    pub fn new() -> (m: Self) {
        ZSrcMerger {  }
    }

    /// One cycle: there is a drive intent exactly when all five topics have
    /// delivered a value.
    pub fn process(
        &self,
        odd_openloop_speed: Option<OddOpenLoopSpeed>,
        odd_loopmode: Option<OddLoopMode>,
        odd_openloop_drivestate: Option<OddOpenLoopDriveState>,
        odd_openloop_forcepan: Option<OddOpenLoopForcepan>,
        odd_openloop_steercmd: Option<OddOpenLoopSteerCmd>,
    ) -> (out: Option<ZenohTopicsAdapterOutputPayload>)
        ensures
            out == if odd_openloop_speed is Some && odd_loopmode is Some
                && odd_openloop_drivestate is Some && odd_openloop_forcepan is Some
                && odd_openloop_steercmd is Some {
                Some(
                    spec_merge(
                        odd_openloop_speed->0,
                        odd_loopmode->0,
                        odd_openloop_drivestate->0,
                        odd_openloop_forcepan->0,
                        odd_openloop_steercmd->0,
                    ),
                )
            } else {
                None::<ZenohTopicsAdapterOutputPayload>
            },
    {
        match (
            odd_openloop_speed,
            odd_loopmode,
            odd_openloop_drivestate,
            odd_openloop_forcepan,
            odd_openloop_steercmd,
        ) {
            (Some(speed), Some(loopmode), Some(drivestate), Some(forcepan), Some(steercmd)) => {
                let loop_state = match loopmode.0 {
                    0 => LoopState::Open,
                    1 => LoopState::Closed,
                    _ => LoopState::Open,
                };
                let openloop_left_speed = speed.0;
                let openloop_right_speed = speed.0;
                let drive_state = match drivestate.0 {
                    0 => false,
                    1 => true,
                    2 => true,
                    _ => false,
                };
                let left_enable = drive_state;
                let right_enable = left_enable;
                let left_direction = match drivestate.0 {
                    0 => WheelDirection::Stop,
                    1 => WheelDirection::Forward,
                    2 => WheelDirection::Reverse,
                    _ => WheelDirection::Stop,
                };
                let right_direction = left_direction;
                let steer_direction = match steercmd.0 {
                    0 => SteerDirection::Free,
                    1 => SteerDirection::HardLeft,
                    2 => SteerDirection::HardRight,
                    _ => SteerDirection::Free,
                };
                let work_or_rest_state = match drivestate.0 {
                    0 => WorkOrRestState::AtRest,
                    1 => WorkOrRestState::AtWork,
                    2 => WorkOrRestState::AtWork,
                    _ => WorkOrRestState::AtRest,
                };
                let camera_position = PositionCommand::from_u8(forcepan.0);
                Some(
                    ZenohTopicsAdapterOutputPayload {
                        loop_state,
                        left_enable,
                        right_enable,
                        openloop_left_speed,
                        openloop_right_speed,
                        left_direction,
                        right_direction,
                        steer_direction,
                        work_or_rest_state,
                        camera_position,
                    },
                )
            },
            _ => None,
        }
    }
}

/// The number of a loop mode is read back as that mode.
pub proof fn lemma_loop_mode_code_is_tag(mode: LoopState)
    ensures
        spec_loop_state(mode.spec_tag()) == mode,
        LoopState::spec_from_tag(mode.spec_tag()) == Some(mode),
{
}

} // verus!
