//! Sensor fusion: the remote drive intent, the distance reading and the
//! vision signal become one safety-checked drive state per cycle.

use vstd::prelude::*;
use crate::cam_pan::{CameraPanningPayload, PositionCommand};
use crate::clock::now_nanos;
use crate::fixed::{clamp_i128, saturate};
use crate::hcsr04::HcSr04Payload;
use crate::opencv_splitter::NsmPayload;
use crate::propulsion::{PropulsionPayload, WheelDirection};

verus! {

/// Whether the rover follows the remote command alone (`Open`) or keeps its
/// lane by vision (`Closed`).
#[derive(Debug, Clone, Copy, PartialEq, Eq, Structural)]
pub enum LoopState {
    Open,
    Closed,
}

impl LoopState {
    /// The number that stands for this mode wherever it is stored or sent:
    /// 0 is `Open`, 1 is `Closed`.
    pub open spec fn spec_tag(self) -> u8 {
        match self {
            LoopState::Open => 0,
            LoopState::Closed => 1,
        }
    }

    /// The mode that `tag` stands for, if any.
    pub open spec fn spec_from_tag(tag: u8) -> Option<LoopState> {
        if tag == 0 {
            Some(LoopState::Open)
        } else if tag == 1 {
            Some(LoopState::Closed)
        } else {
            None
        }
    }

    /// The number that stands for this mode.
    pub fn tag(self) -> (t: u8)
        ensures
            t == self.spec_tag(),
    {
        match self {
            LoopState::Open => 0,
            LoopState::Closed => 1,
        }
    }

    /// The mode that `tag` stands for, if any.
    pub fn from_tag(tag: u8) -> (s: Option<LoopState>)
        ensures
            s == Self::spec_from_tag(tag),
    {
        if tag == 0 {
            Some(LoopState::Open)
        } else if tag == 1 {
            Some(LoopState::Closed)
        } else {
            None
        }
    }
}

impl Default for LoopState {
    fn default() -> (s: Self)
        ensures
            s == LoopState::Open,
    {
        LoopState::Open
    }
}

/// Whether the operator wants the rover at rest or at work.
#[derive(Debug, Clone, Copy, PartialEq, Eq, Structural)]
pub enum WorkOrRestState {
    AtRest,
    AtWork,
}

impl Default for WorkOrRestState {
    fn default() -> (s: Self)
        ensures
            s == WorkOrRestState::AtRest,
    {
        WorkOrRestState::AtRest
    }
}

/// The operator's steering command in open loop.
#[derive(Debug, Clone, Copy, PartialEq, Eq, Structural)]
pub enum SteerDirection {
    Free,
    HardRight,
    SlightRight,
    HardLeft,
    SlightLeft,
}

impl Default for SteerDirection {
    fn default() -> (s: Self)
        ensures
            s == SteerDirection::Free,
    {
        SteerDirection::Free
    }
}

/// The drive intent of the remote operator, as of the latest messages.
#[derive(Debug, Clone, Copy, PartialEq, Eq)]
pub struct ZenohTopicsAdapterOutputPayload {
    pub loop_state: LoopState,
    pub left_enable: bool,
    pub right_enable: bool,
    pub openloop_left_speed: i64,
    pub openloop_right_speed: i64,
    pub left_direction: WheelDirection,
    pub right_direction: WheelDirection,
    pub steer_direction: SteerDirection,
    pub work_or_rest_state: WorkOrRestState,
    pub camera_position: PositionCommand,
}

/// The fused drive state of one cycle.
#[derive(Debug, Clone, Copy, PartialEq, Eq)]
pub struct PropulsionAdapterOutputPayload {
    pub loop_state: LoopState,
    pub propulsion_payload: PropulsionPayload,
    pub panner_payload: CameraPanningPayload,
    pub weighted_error: i64,
    pub is_e_stop_triggered: bool,
    pub distance: Option<i64>,
}

/// The heading error handed to the lane controller.
#[derive(Debug, Clone, Copy, PartialEq, Eq)]
pub struct DualMtrCtrlrPayload {
    pub error: i64,
}

/// Everything the fusion step produces in one cycle.
#[derive(Debug, Clone, Copy, PartialEq, Eq)]
pub struct PropulsionAdapterOutput {
    /// The fused drive state.
    pub fused: PropulsionAdapterOutputPayload,
    /// The error sample for the lane controller.
    pub error_sample: DualMtrCtrlrPayload,
    /// The time, in nanoseconds, with which the error sample is stamped.
    pub error_sample_tov: u64,
    /// Neither the lane's line nor a corner was seen in closed loop, so the
    /// heading error is the one the vision signal last held.
    pub heading_signals_absent: bool,
}

/// The fusion step and its configuration.
#[derive(Debug, Clone, Copy, PartialEq, Eq)]
pub struct PropulsionAdapter {
    /// An obstacle nearer than this, in fixed-point centimetres, triggers the
    /// emergency stop.
    pub e_stop_threshold_cm: i64,
    /// Whether a cycle without a distance value counts as an emergency stop.
    pub e_stop_without_reading: bool,
}

/// Half of the image's width, from which a corner's offset is measured.
pub const IMAGE_CENTRE: i64 = 500_000;

impl PropulsionAdapter {
    /// The emergency stop is triggered by an obstacle nearer than the
    /// threshold, and without a distance value as the policy says.
    pub open spec fn spec_is_e_stop(self, distance: Option<i64>) -> bool {
        match distance {
            Some(d) => d < self.e_stop_threshold_cm,
            None => self.e_stop_without_reading,
        }
    }

    /// The heading error that a vision signal yields: that of the lane's
    /// line, or, where the line is not seen and a corner is, the corner's
    /// offset from the image's centre.
    pub open spec fn spec_heading_error(m: NsmPayload) -> int {
        if !m.vertical_line_valid && m.corner_detected {
            saturate(IMAGE_CENTRE - m.corner_coords.0)
        } else {
            m.heading_error as int
        }
    }

    /// The propulsion command of the fused state.
    pub open spec fn spec_propulsion(
        intent: ZenohTopicsAdapterOutputPayload,
        is_e_stop_triggered: bool,
    ) -> PropulsionPayload {
        if is_e_stop_triggered || intent.work_or_rest_state == WorkOrRestState::AtRest {
            PropulsionPayload::spec_all_stop()
        } else {
            let hard_left = intent.loop_state == LoopState::Open && intent.steer_direction
                == SteerDirection::HardLeft;
            let hard_right = intent.loop_state == LoopState::Open && intent.steer_direction
                == SteerDirection::HardRight;
            PropulsionPayload {
                left_enable: intent.left_enable,
                right_enable: intent.right_enable,
                left_speed: intent.openloop_left_speed,
                right_speed: intent.openloop_right_speed,
                left_direction: if hard_left {
                    WheelDirection::Reverse
                } else if hard_right {
                    WheelDirection::Forward
                } else {
                    intent.left_direction
                },
                right_direction: if hard_left {
                    WheelDirection::Forward
                } else if hard_right {
                    WheelDirection::Reverse
                } else {
                    intent.right_direction
                },
            }
        }
    }

    /// There is an output exactly when the drive intent and the distance
    /// payload are present and, in closed loop, the vision signal too.
    pub open spec fn spec_has_output(
        intent: Option<ZenohTopicsAdapterOutputPayload>,
        reading: Option<HcSr04Payload>,
        vision: Option<NsmPayload>,
    ) -> bool {
        &&& intent is Some
        &&& reading is Some
        &&& intent->0.loop_state == LoopState::Closed ==> vision is Some
    }

    /// The output of the cycle at time `now`, where there is one.
    pub open spec fn spec_output(
        self,
        now: u64,
        intent: ZenohTopicsAdapterOutputPayload,
        reading: HcSr04Payload,
        vision: Option<NsmPayload>,
    ) -> PropulsionAdapterOutput {
        let closed = intent.loop_state == LoopState::Closed;
        let e_stop = self.spec_is_e_stop(reading.distance);
        let error = if closed {
            Self::spec_heading_error(vision->0) as i64
        } else {
            0i64
        };
        PropulsionAdapterOutput {
            fused: PropulsionAdapterOutputPayload {
                loop_state: intent.loop_state,
                propulsion_payload: Self::spec_propulsion(intent, e_stop),
                panner_payload: CameraPanningPayload { pos_cmd: intent.camera_position },
                weighted_error: error,
                is_e_stop_triggered: e_stop,
                distance: reading.distance,
            },
            error_sample: DualMtrCtrlrPayload { error },
            error_sample_tov: now,
            heading_signals_absent: closed && !vision->0.vertical_line_valid
                && !vision->0.corner_detected,
        }
    }

    /// The fusion step with the given threshold, in which a cycle without a
    /// distance value is no emergency stop.
    pub fn new(e_stop_threshold_cm: i64) -> (a: Self)
        ensures
            a.e_stop_threshold_cm == e_stop_threshold_cm,
            !a.e_stop_without_reading,
    {
        PropulsionAdapter { e_stop_threshold_cm, e_stop_without_reading: false }
    }

    /// Whether `distance` triggers the emergency stop.
    pub fn is_e_stop(&self, distance: Option<i64>) -> (stop: bool)
        ensures
            stop == self.spec_is_e_stop(distance),
    {
        match distance {
            Some(d) => d < self.e_stop_threshold_cm,
            None => self.e_stop_without_reading,
        }
    }

    /// The heading error that the vision signal `m` yields.
    pub fn heading_error(m: &NsmPayload) -> (e: i64)
        ensures
            e == Self::spec_heading_error(*m),
    {
        if !m.vertical_line_valid && m.corner_detected {
            clamp_i128((IMAGE_CENTRE as i128) - (m.corner_coords.0 as i128), i64::MIN, i64::MAX)
        } else {
            m.heading_error
        }
    }

    /// The propulsion command of the fused state: all-stop under the stop
    /// condition, else the intent with the open-loop steering override.
    pub fn fuse_propulsion(intent: &ZenohTopicsAdapterOutputPayload, is_e_stop_triggered: bool)
        -> (p: PropulsionPayload)
        ensures
            p == Self::spec_propulsion(*intent, is_e_stop_triggered),
    {
        let is_at_rest = intent.work_or_rest_state == WorkOrRestState::AtRest;
        let stop_condition = is_e_stop_triggered || is_at_rest;
        if stop_condition {
            return PropulsionPayload::all_stop();
        }
        let mut p = PropulsionPayload {
            left_enable: intent.left_enable,
            right_enable: intent.right_enable,
            left_speed: intent.openloop_left_speed,
            right_speed: intent.openloop_right_speed,
            left_direction: intent.left_direction,
            right_direction: intent.right_direction,
        };
        if intent.loop_state == LoopState::Open {
            match intent.steer_direction {
                SteerDirection::HardLeft => {
                    p.left_direction = WheelDirection::Reverse;
                    p.right_direction = WheelDirection::Forward;
                },
                SteerDirection::HardRight => {
                    p.left_direction = WheelDirection::Forward;
                    p.right_direction = WheelDirection::Reverse;
                },
                _ => {},
            }
        }
        p
    }

    /// One cycle at time `now`.
    pub fn process_at(
        &self,
        now: u64,
        intent: Option<ZenohTopicsAdapterOutputPayload>,
        reading: Option<HcSr04Payload>,
        vision: Option<NsmPayload>,
    ) -> (out: Option<PropulsionAdapterOutput>)
        ensures
            out is Some <==> Self::spec_has_output(intent, reading, vision),
            out matches Some(o) ==> o == self.spec_output(now, intent->0, reading->0, vision),
    {
        let Some(intent) = intent else {
            return None;
        };
        let Some(reading) = reading else {
            return None;
        };
        let loop_state = intent.loop_state;
        let distance = reading.distance;
        let is_e_stop_triggered = self.is_e_stop(distance);
        let mut heading_signals_absent = false;
        let weighted_error: i64 = match loop_state {
            LoopState::Closed => match vision {
                Some(m) => {
                    heading_signals_absent = !m.vertical_line_valid && !m.corner_detected;
                    Self::heading_error(&m)
                },
                None => {
                    return None;
                },
            },
            LoopState::Open => 0,
        };
        let propulsion_payload = Self::fuse_propulsion(&intent, is_e_stop_triggered);
        let panner_payload = CameraPanningPayload { pos_cmd: intent.camera_position };
        Some(
            PropulsionAdapterOutput {
                fused: PropulsionAdapterOutputPayload {
                    loop_state,
                    propulsion_payload,
                    panner_payload,
                    weighted_error,
                    is_e_stop_triggered,
                    distance,
                },
                error_sample: DualMtrCtrlrPayload { error: weighted_error },
                error_sample_tov: now,
                heading_signals_absent,
            },
        )
    }

    /// One cycle: reads the clock for the error sample's time stamp. Apart
    /// from that stamp the output is that of `process_at`.
    pub fn process(
        &self,
        clock: &cu29::clock::RobotClock,
        intent: Option<ZenohTopicsAdapterOutputPayload>,
        reading: Option<HcSr04Payload>,
        vision: Option<NsmPayload>,
    ) -> (out: Option<PropulsionAdapterOutput>)
        ensures
            out is Some <==> Self::spec_has_output(intent, reading, vision),
            out matches Some(o) ==> o == self.spec_output(
                o.error_sample_tov,
                intent->0,
                reading->0,
                vision,
            ),
    {
        let now: u64 = now_nanos(clock);
        self.process_at(now, intent, reading, vision)
    }
}

/// The fused state never carries a drive command under the stop
/// condition: with the emergency stop triggered, or the rover at rest, its
/// propulsion command is all-stop.
pub proof fn lemma_stop_condition_forces_all_stop(
    adapter: PropulsionAdapter,
    now: u64,
    intent: ZenohTopicsAdapterOutputPayload,
    reading: HcSr04Payload,
    vision: Option<NsmPayload>,
)
    ensures
        adapter.spec_output(now, intent, reading, vision).fused.is_e_stop_triggered
            ==> adapter.spec_output(now, intent, reading, vision).fused.propulsion_payload
            == PropulsionPayload::spec_all_stop(),
        intent.work_or_rest_state == WorkOrRestState::AtRest ==> adapter.spec_output(
            now,
            intent,
            reading,
            vision,
        ).fused.propulsion_payload == PropulsionPayload::spec_all_stop(),
{
}

/// An obstacle nearer than the threshold triggers the emergency stop,
/// whatever the loop mode and the vision signal; one at the threshold or
/// farther does not.
pub proof fn lemma_near_obstacle_triggers_e_stop(
    adapter: PropulsionAdapter,
    now: u64,
    intent: ZenohTopicsAdapterOutputPayload,
    distance: i64,
    vision: Option<NsmPayload>,
)
    ensures
        adapter.spec_output(
            now,
            intent,
            HcSr04Payload { distance: Some(distance) },
            vision,
        ).fused.is_e_stop_triggered == (distance < adapter.e_stop_threshold_cm),
{
}

/// The error sample is the fused heading error, and in open loop it is zero.
pub proof fn lemma_error_sample_is_fused_error(
    adapter: PropulsionAdapter,
    now: u64,
    intent: ZenohTopicsAdapterOutputPayload,
    reading: HcSr04Payload,
    vision: Option<NsmPayload>,
)
    ensures
        adapter.spec_output(now, intent, reading, vision).error_sample.error
            == adapter.spec_output(now, intent, reading, vision).fused.weighted_error,
        intent.loop_state == LoopState::Open ==> adapter.spec_output(
            now,
            intent,
            reading,
            vision,
        ).error_sample.error == 0,
{
}

} // verus!
