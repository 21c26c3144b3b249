//! Arbitration: each cycle chooses between the open-loop and the
//! closed-loop command, applies the emergency stop, runs the cornering and
//! the pivot maneuver, and produces the command for the two wheels.

use vstd::prelude::*;
use crate::anc_pub::AncPubPayload;
use crate::clock::raw_now_nanos;
use crate::fixed::{clamp, clamp_i128, lemma_product_fits, mul_scaled, scaled_product, SCALE};
use crate::opencv_iox2::CornerDirection;
use crate::opencv_splitter::NsmPayload;
use crate::pid::PIDControlOutputPayload;
use crate::propulsion::{PropulsionPayload, WheelDirection};
use crate::hcsr04::HcSr04Payload;
use crate::propulsion_adapter::{
    LoopState, PropulsionAdapter, PropulsionAdapterOutputPayload, ZenohTopicsAdapterOutputPayload,
};
use crate::rotation::{
    OnAxisRotator, RotateOnAxisCmd, RotateOnAxisState, ON_AXIS_ROTATION_DURATION_MILLISEC,
};

verus! {

/// Compensation for the winding resistance of the left motor.
pub const R_WIND_COMP_LMTR: i64 = 1_170_000;

/// Compensation for the winding resistance of the right motor.
pub const R_WIND_COMP_RMTR: i64 = 850_000;

/// The target speed of lane keeping while none was commanded.
pub const BASELINE_SPEED: i64 = 200_000;

/// A heading error smaller in magnitude than this ends the cornering maneuver.
pub const HEADING_ERROR_END_STEERING_MANEUVER_THRESHOLD: i64 = 100_000;

/// The speed of the outer wheel while cornering, before compensation.
pub const OUTER_WHEEL_STEERING_SPEED: i64 = 850_000;

/// The speed of the inner wheel while cornering, before compensation.
pub const INNER_WHEEL_STEERING_SPEED: i64 = 500_000;

/// The largest compensation factor.
pub const MAX_COMPENSATION: i64 = 2_000_000;

/// The largest speed that lane keeping commands.
pub const LANE_KEEPING_MAX_SPEED: i64 = 900_000;

/// Where the cornering maneuver stands.
#[derive(Debug, Clone, Copy, PartialEq, Eq, Structural)]
pub enum SteererState {
    Steering,
    Done,
    NotSteering,
}

impl Default for SteererState {
    fn default() -> (s: Self)
        ensures
            s == SteererState::NotSteering,
    {
        SteererState::NotSteering
    }
}

/// Why a configuration is refused.
#[derive(Debug, Clone, Copy, PartialEq, Eq, Structural)]
pub enum ConfigError {
    /// A compensation factor lies outside `[0, 2]`.
    CompensationOutOfRange,
    /// One compensation factor is above 1 and the other is not below 1.
    CompensationNotBalanced,
    /// The corner trigger lies outside `[0, 1]`.
    SteeringTriggerOutOfRange,
}

/// The arbitration engine: its feedback values, its configuration, and the
/// state of the two maneuvers.
#[derive(Debug, Clone, Copy, PartialEq, Eq)]
pub struct Arbitrator {
    pub e_stop_trig_fdbk: bool,
    pub loop_mode_fdbk: LoopState,
    pub target_speed: Option<i64>,
    /// Applied to the left motor.
    pub r_wind_comp_lmtr: i64,
    /// Applied to the right motor.
    pub r_wind_comp_rmtr: i64,
    /// A corner whose `y` coordinate is at most this starts the cornering
    /// maneuver.
    pub corner_y_coord_steering_trig: i64,
    /// How long a pivot may last, in milliseconds.
    pub on_axis_rotation_duration_ms: u64,
    pub steerer_state: SteererState,
    pub on_axis_rotator: OnAxisRotator,
}

/// What one arbitration cycle produces.
#[derive(Debug, Clone, Copy, PartialEq, Eq)]
pub struct ArbitratorOutput {
    /// The command for the two wheels.
    pub command: PropulsionPayload,
    /// The feedback for the base station.
    pub feedback: AncPubPayload,
}

/// The pair of compensation factors is admissible: each lies in `[0, 2]`.
pub open spec fn compensation_in_range(left: i64, right: i64) -> bool {
    0 <= left <= MAX_COMPENSATION && 0 <= right <= MAX_COMPENSATION
}

/// Where one factor is above 1, the other is below 1.
pub open spec fn compensation_balanced(left: i64, right: i64) -> bool {
    (left > SCALE ==> right < SCALE) && (right > SCALE ==> left < SCALE)
}

/// A speed after compensation, limited to `[0, max]`.
pub open spec fn compensated(speed: int, comp: int, max: int) -> int {
    clamp(scaled_product(speed, comp), 0, max)
}

/// The speed of a lane-keeping wheel: the compensated target, corrected by
/// `correction`, limited to what lane keeping may command.
pub open spec fn lane_keeping_speed(target: int, comp: int, correction: int) -> int {
    clamp(scaled_product(target, comp) + correction, 0, LANE_KEEPING_MAX_SPEED as int)
}

/// Computes a compensated speed.
fn compensate(speed: i64, comp: i64, max: i64) -> (r: i64)
    requires
        0 <= comp <= MAX_COMPENSATION,
        0 <= max,
    ensures
        r == compensated(speed as int, comp as int, max as int),
{
    proof {
        lemma_product_fits(
            speed as int,
            comp as int,
            0x8000_0000_0000_0000,
            MAX_COMPENSATION as int,
        );
    }
    clamp_i128(mul_scaled(speed as i128, comp as i128), 0, max)
}

/// Computes the speed of a lane-keeping wheel.
fn lane_keeping(target: i64, comp: i64, correction: i128) -> (r: i64)
    requires
        0 <= comp <= MAX_COMPENSATION,
        -0x8000_0000_0000_0000 <= correction <= 0x8000_0000_0000_0000,
    ensures
        r == lane_keeping_speed(target as int, comp as int, correction as int),
{
    proof {
        lemma_product_fits(
            target as int,
            comp as int,
            0x8000_0000_0000_0000,
            MAX_COMPENSATION as int,
        );
    }
    let base: i128 = mul_scaled(target as i128, comp as i128);
    assert(-0x8000_0000_0000_0000 * 2_000_000 <= (target as int) * (comp as int)
        <= 0x8000_0000_0000_0000 * 2_000_000);
    clamp_i128(base + correction, 0, LANE_KEEPING_MAX_SPEED)
}

impl Arbitrator {
    /// The configuration is admissible.
    pub open spec fn wf(self) -> bool {
        &&& compensation_in_range(self.r_wind_comp_lmtr, self.r_wind_comp_rmtr)
        &&& compensation_balanced(self.r_wind_comp_lmtr, self.r_wind_comp_rmtr)
        &&& 0 <= self.corner_y_coord_steering_trig <= SCALE
        &&& self.on_axis_rotator.inv()
    }

    /// The engine before its first cycle, with nothing configured.
    pub open spec fn spec_default() -> Arbitrator {
        Arbitrator {
            e_stop_trig_fdbk: false,
            loop_mode_fdbk: LoopState::Closed,
            target_speed: None,
            r_wind_comp_lmtr: 0,
            r_wind_comp_rmtr: 0,
            corner_y_coord_steering_trig: 0,
            on_axis_rotation_duration_ms: ON_AXIS_ROTATION_DURATION_MILLISEC,
            steerer_state: SteererState::NotSteering,
            on_axis_rotator: OnAxisRotator::spec_default(),
        }
    }

    /// Why the given configuration is refused, if it is: the range of the
    /// compensation factors is checked first, then their balance, then the
    /// corner trigger.
    pub open spec fn spec_config_error(
        r_wind_comp_lmtr: i64,
        r_wind_comp_rmtr: i64,
        corner_y_coord_steering_trig: i64,
    ) -> Option<ConfigError> {
        if !compensation_in_range(r_wind_comp_lmtr, r_wind_comp_rmtr) {
            Some(ConfigError::CompensationOutOfRange)
        } else if !compensation_balanced(r_wind_comp_lmtr, r_wind_comp_rmtr) {
            Some(ConfigError::CompensationNotBalanced)
        } else if !(0 <= corner_y_coord_steering_trig <= SCALE) {
            Some(ConfigError::SteeringTriggerOutOfRange)
        } else {
            None
        }
    }

    /// The target speed of lane keeping.
    pub open spec fn spec_target(self) -> int {
        match self.target_speed {
            Some(t) => t as int,
            None => BASELINE_SPEED as int,
        }
    }

    /// The lane-keeping command: all-stop under the emergency stop, else
    /// both wheels forward, the left slowed and the right sped up by the
    /// controller's output.
    pub open spec fn spec_closed_loop(
        self,
        pid_output: i64,
        fused: PropulsionAdapterOutputPayload,
    ) -> PropulsionPayload {
        if fused.is_e_stop_triggered {
            PropulsionPayload::spec_all_stop()
        } else {
            PropulsionPayload {
                left_enable: true,
                right_enable: true,
                left_speed: lane_keeping_speed(
                    self.spec_target(),
                    self.r_wind_comp_lmtr as int,
                    -(pid_output as int),
                ) as i64,
                right_speed: lane_keeping_speed(
                    self.spec_target(),
                    self.r_wind_comp_rmtr as int,
                    pid_output as int,
                ) as i64,
                left_direction: WheelDirection::Forward,
                right_direction: WheelDirection::Forward,
            }
        }
    }

    /// The heading error is small enough to end the cornering maneuver.
    pub open spec fn ends_steering(heading_error: i64) -> bool {
        -HEADING_ERROR_END_STEERING_MANEUVER_THRESHOLD < heading_error
            < HEADING_ERROR_END_STEERING_MANEUVER_THRESHOLD
    }

    /// The cornering command and the maneuver's state after it: all-stop
    /// under the emergency stop; speeds zero and the maneuver done once the
    /// heading error is small; else the outer wheel fast and the inner slow.
    pub open spec fn spec_steering(
        self,
        fused: PropulsionAdapterOutputPayload,
        vision: NsmPayload,
    ) -> (SteererState, PropulsionPayload) {
        if fused.is_e_stop_triggered {
            (self.steerer_state, PropulsionPayload::spec_all_stop())
        } else if Self::ends_steering(fused.weighted_error) {
            (
                SteererState::Done,
                PropulsionPayload {
                    left_enable: true,
                    right_enable: true,
                    left_speed: 0,
                    right_speed: 0,
                    left_direction: WheelDirection::Forward,
                    right_direction: WheelDirection::Forward,
                },
            )
        } else {
            let right_is_outer = vision.corner_direction == CornerDirection::Right;
            (
                self.steerer_state,
                PropulsionPayload {
                    left_enable: true,
                    right_enable: true,
                    left_speed: compensated(
                        if right_is_outer {
                            INNER_WHEEL_STEERING_SPEED as int
                        } else {
                            OUTER_WHEEL_STEERING_SPEED as int
                        },
                        self.r_wind_comp_lmtr as int,
                        SCALE as int,
                    ) as i64,
                    right_speed: compensated(
                        if right_is_outer {
                            OUTER_WHEEL_STEERING_SPEED as int
                        } else {
                            INNER_WHEEL_STEERING_SPEED as int
                        },
                        self.r_wind_comp_rmtr as int,
                        SCALE as int,
                    ) as i64,
                    left_direction: WheelDirection::Forward,
                    right_direction: WheelDirection::Forward,
                },
            )
        }
    }

    /// The pivot state after the open-loop cycle at clock reading `now`.
    pub open spec fn spec_rotator_after(
        self,
        now: u64,
        fused: PropulsionAdapterOutputPayload,
    ) -> OnAxisRotator {
        if fused.is_e_stop_triggered {
            self.on_axis_rotator
        } else {
            self.on_axis_rotator.spec_cycle(
                fused.propulsion_payload.left_direction,
                fused.propulsion_payload.right_direction,
                now,
                self.on_axis_rotation_duration_ms,
            )
        }
    }

    /// The pivot is halted in the open-loop cycle at clock reading `now`:
    /// a pivot is commanded and its time is spent.
    pub open spec fn spec_pivot_halted(
        self,
        now: u64,
        fused: PropulsionAdapterOutputPayload,
    ) -> bool {
        self.on_axis_rotator.spec_halted(
            fused.propulsion_payload.left_direction,
            fused.propulsion_payload.right_direction,
            now,
            self.on_axis_rotation_duration_ms,
        )
    }

    /// The open-loop command: all-stop under the emergency stop; else the
    /// fused command with compensated speeds, with both directions forced to
    /// `Stop` where the pivot is halted, and no wheel enabled that stops.
    pub open spec fn spec_open_loop(
        self,
        now: u64,
        fused: PropulsionAdapterOutputPayload,
    ) -> PropulsionPayload {
        if fused.is_e_stop_triggered {
            PropulsionPayload::spec_all_stop()
        } else {
            let cmd = fused.propulsion_payload;
            let halted = self.spec_pivot_halted(now, fused);
            let left_direction = if halted {
                WheelDirection::Stop
            } else {
                cmd.left_direction
            };
            let right_direction = if halted {
                WheelDirection::Stop
            } else {
                cmd.right_direction
            };
            PropulsionPayload {
                left_enable: cmd.left_enable && left_direction != WheelDirection::Stop,
                right_enable: cmd.right_enable && right_direction != WheelDirection::Stop,
                left_speed: compensated(
                    cmd.left_speed as int,
                    self.r_wind_comp_lmtr as int,
                    SCALE as int,
                ) as i64,
                right_speed: compensated(
                    cmd.right_speed as int,
                    self.r_wind_comp_rmtr as int,
                    SCALE as int,
                ) as i64,
                left_direction,
                right_direction,
            }
        }
    }

    /// The engine once it has taken note of the fused state: the target
    /// speed is the commanded left speed, the feedback values follow the
    /// fused state.
    pub open spec fn spec_noted(self, fused: PropulsionAdapterOutputPayload) -> Arbitrator {
        Arbitrator {
            target_speed: Some(fused.propulsion_payload.left_speed),
            e_stop_trig_fdbk: fused.is_e_stop_triggered,
            loop_mode_fdbk: fused.loop_state,
            ..self
        }
    }

    /// The cornering maneuver is triggered, or already running, in a cycle
    /// with this vision signal.
    pub open spec fn spec_steers(self, vision: Option<NsmPayload>) -> bool {
        vision matches Some(v) && (v.corner_coords.1 <= self.corner_y_coord_steering_trig
            || self.steerer_state == SteererState::Steering)
    }

    /// The closed-loop command of a cycle: the cornering command while the
    /// maneuver runs and the vision signal is present; else the lane-keeping
    /// command where the controller's output is present and no maneuver
    /// runs; else all-stop.
    pub open spec fn spec_closed_loop_cmd(
        self,
        fused: PropulsionAdapterOutputPayload,
        pid: Option<PIDControlOutputPayload>,
        vision: Option<NsmPayload>,
    ) -> PropulsionPayload {
        let noted = self.spec_noted(fused);
        if self.spec_steers(vision) {
            noted.spec_steering(fused, vision->0).1
        } else if pid is Some && self.steerer_state != SteererState::Steering {
            noted.spec_closed_loop(pid->0.output, fused)
        } else {
            PropulsionPayload::spec_all_stop()
        }
    }

    /// The state of the cornering maneuver after a cycle.
    pub open spec fn spec_steerer_after(
        self,
        fused: PropulsionAdapterOutputPayload,
        vision: Option<NsmPayload>,
    ) -> SteererState {
        if self.spec_steers(vision) {
            Arbitrator { steerer_state: SteererState::Steering, ..self }.spec_steering(
                fused,
                vision->0,
            ).0
        } else {
            self.steerer_state
        }
    }

    /// The engine after the cycle at clock reading `now`.
    pub open spec fn spec_after(
        self,
        now: u64,
        fused: PropulsionAdapterOutputPayload,
        vision: Option<NsmPayload>,
    ) -> Arbitrator {
        Arbitrator {
            steerer_state: self.spec_steerer_after(fused, vision),
            on_axis_rotator: if fused.loop_state == LoopState::Open {
                self.spec_rotator_after(now, fused)
            } else {
                self.on_axis_rotator
            },
            ..self.spec_noted(fused)
        }
    }

    /// The wheel command of the cycle at clock reading `now`.
    pub open spec fn spec_command(
        self,
        now: u64,
        fused: PropulsionAdapterOutputPayload,
        pid: Option<PIDControlOutputPayload>,
        vision: Option<NsmPayload>,
    ) -> PropulsionPayload {
        match fused.loop_state {
            LoopState::Open => self.spec_open_loop(now, fused),
            LoopState::Closed => self.spec_closed_loop_cmd(fused, pid, vision),
        }
    }

    /// The feedback of a cycle.
    pub open spec fn spec_feedback(fused: PropulsionAdapterOutputPayload) -> AncPubPayload {
        AncPubPayload {
            e_stop_trig_fdbk: fused.is_e_stop_triggered,
            loop_mode_fdbk: fused.loop_state,
            distance: fused.distance,
        }
    }

    /// An engine with the given configuration, before its first cycle.
    pub fn new(
        r_wind_comp_lmtr: i64,
        r_wind_comp_rmtr: i64,
        corner_y_coord_steering_trig: i64,
        on_axis_rotation_duration_ms: u64,
    ) -> (made: Result<Arbitrator, ConfigError>)
        ensures
            match Self::spec_config_error(
                r_wind_comp_lmtr,
                r_wind_comp_rmtr,
                corner_y_coord_steering_trig,
            ) {
                Some(e) => made == Err::<Arbitrator, ConfigError>(e),
                None => made == Ok::<Arbitrator, ConfigError>(
                    Arbitrator {
                        r_wind_comp_lmtr,
                        r_wind_comp_rmtr,
                        corner_y_coord_steering_trig,
                        on_axis_rotation_duration_ms,
                        ..Self::spec_default()
                    },
                ),
            },
            made matches Ok(a) ==> a.wf(),
    {
        if r_wind_comp_lmtr < 0 || r_wind_comp_lmtr > MAX_COMPENSATION || r_wind_comp_rmtr < 0
            || r_wind_comp_rmtr > MAX_COMPENSATION {
            return Err(ConfigError::CompensationOutOfRange);
        }
        if (r_wind_comp_lmtr > SCALE && r_wind_comp_rmtr >= SCALE) || (r_wind_comp_rmtr > SCALE
            && r_wind_comp_lmtr >= SCALE) {
            return Err(ConfigError::CompensationNotBalanced);
        }
        if corner_y_coord_steering_trig < 0 || corner_y_coord_steering_trig > SCALE {
            return Err(ConfigError::SteeringTriggerOutOfRange);
        }
        Ok(
            Arbitrator {
                e_stop_trig_fdbk: false,
                loop_mode_fdbk: LoopState::Closed,
                target_speed: None,
                r_wind_comp_lmtr,
                r_wind_comp_rmtr,
                corner_y_coord_steering_trig,
                on_axis_rotation_duration_ms,
                steerer_state: SteererState::NotSteering,
                on_axis_rotator: OnAxisRotator::default(),
            },
        )
    }

    /// Whether the configuration is admissible.
    pub fn is_well_formed(&self) -> (ok: bool)
        ensures
            ok == self.wf(),
    {
        Self::new(
            self.r_wind_comp_lmtr,
            self.r_wind_comp_rmtr,
            self.corner_y_coord_steering_trig,
            self.on_axis_rotation_duration_ms,
        ).is_ok() && self.on_axis_rotator.holds_inv()
    }

    /// The lane-keeping command for the controller's output.
    pub fn closed_loop_handler(
        &self,
        pid_pload: &PIDControlOutputPayload,
        prop_adap_pload: &PropulsionAdapterOutputPayload,
    ) -> (cmd: PropulsionPayload)
        requires
            self.wf(),
        ensures
            cmd == self.spec_closed_loop(pid_pload.output, *prop_adap_pload),
            prop_adap_pload.is_e_stop_triggered ==> cmd == PropulsionPayload::spec_all_stop(),
            cmd.is_safe(LANE_KEEPING_MAX_SPEED as int),
    {
        if prop_adap_pload.is_e_stop_triggered {
            return PropulsionPayload::all_stop();
        }
        let pid_output = pid_pload.output;
        let target: i64 = match self.target_speed {
            Some(t) => t,
            None => BASELINE_SPEED,
        };
        // A positive output turns right: the left wheel slows, the right speeds up.
        let left_speed = lane_keeping(target, self.r_wind_comp_lmtr, -(pid_output as i128));
        let right_speed = lane_keeping(target, self.r_wind_comp_rmtr, pid_output as i128);
        PropulsionPayload {
            left_enable: true,
            right_enable: true,
            left_speed,
            right_speed,
            left_direction: WheelDirection::Forward,
            right_direction: WheelDirection::Forward,
        }
    }

    /// The cornering command; ends the maneuver once the heading error is small.
    pub fn steering_handler(
        &mut self,
        prop_adap_pload: &PropulsionAdapterOutputPayload,
        steering_msg: NsmPayload,
    ) -> (cmd: PropulsionPayload)
        requires
            old(self).wf(),
        ensures
            (final(self).steerer_state, cmd) == old(self).spec_steering(
                *prop_adap_pload,
                steering_msg,
            ),
            *final(self) == (Arbitrator { steerer_state: final(self).steerer_state, ..*old(self) }),
            prop_adap_pload.is_e_stop_triggered ==> cmd == PropulsionPayload::spec_all_stop(),
            cmd.is_safe(SCALE as int),
    {
        if prop_adap_pload.is_e_stop_triggered {
            return PropulsionPayload::all_stop();
        }
        let heading_error = prop_adap_pload.weighted_error;
        let mut left_speed: i64;
        let mut right_speed: i64;
        match steering_msg.corner_direction {
            CornerDirection::Right => {
                right_speed = compensate(OUTER_WHEEL_STEERING_SPEED, self.r_wind_comp_rmtr, SCALE);
                left_speed = compensate(INNER_WHEEL_STEERING_SPEED, self.r_wind_comp_lmtr, SCALE);
            },
            CornerDirection::Left => {
                right_speed = compensate(INNER_WHEEL_STEERING_SPEED, self.r_wind_comp_rmtr, SCALE);
                left_speed = compensate(OUTER_WHEEL_STEERING_SPEED, self.r_wind_comp_lmtr, SCALE);
            },
        }
        if -HEADING_ERROR_END_STEERING_MANEUVER_THRESHOLD < heading_error && heading_error
            < HEADING_ERROR_END_STEERING_MANEUVER_THRESHOLD {
            right_speed = 0;
            left_speed = 0;
            self.steerer_state = SteererState::Done;
        }
        PropulsionPayload {
            left_enable: true,
            right_enable: true,
            left_speed,
            right_speed,
            left_direction: WheelDirection::Forward,
            right_direction: WheelDirection::Forward,
        }
    }

    /// The open-loop command at clock reading `now`; runs the pivot maneuver.
    pub fn open_loop_handler_at(
        &mut self,
        now: u64,
        prop_adap_pload: &PropulsionAdapterOutputPayload,
    ) -> (cmd: PropulsionPayload)
        requires
            old(self).wf(),
        ensures
            cmd == old(self).spec_open_loop(now, *prop_adap_pload),
            *final(self) == (Arbitrator {
                on_axis_rotator: old(self).spec_rotator_after(now, *prop_adap_pload),
                ..*old(self)
            }),
            prop_adap_pload.is_e_stop_triggered ==> cmd == PropulsionPayload::spec_all_stop(),
            cmd.is_safe(SCALE as int),
    {
        if prop_adap_pload.is_e_stop_triggered {
            return PropulsionPayload::all_stop();
        }
        let mut ret = prop_adap_pload.propulsion_payload;
        ret.right_speed = compensate(ret.right_speed, self.r_wind_comp_rmtr, SCALE);
        ret.left_speed = compensate(ret.left_speed, self.r_wind_comp_lmtr, SCALE);
        self.on_axis_rotator.update_current_cmd_from_wheel_dir(
            ret.left_direction,
            ret.right_direction,
        );
        if self.on_axis_rotator.current_cmd != RotateOnAxisCmd::Free {
            let (should_rotate, _cmd) = self.on_axis_rotator.should_rotate_at(
                now,
                self.on_axis_rotation_duration_ms,
            );
            if !should_rotate {
                ret.left_direction = WheelDirection::Stop;
                ret.right_direction = WheelDirection::Stop;
            }
        }
        if ret.left_direction == WheelDirection::Stop {
            ret.left_enable = false;
        }
        if ret.right_direction == WheelDirection::Stop {
            ret.right_enable = false;
        }
        ret
    }

    /// One cycle at clock reading `now`. Without a fused state nothing is
    /// produced and nothing changes.
    pub fn process_at(
        &mut self,
        now: u64,
        prop_adap: Option<PropulsionAdapterOutputPayload>,
        mtr_pid: Option<PIDControlOutputPayload>,
        nsm: Option<NsmPayload>,
    ) -> (out: Option<ArbitratorOutput>)
        requires
            old(self).wf(),
        ensures
            final(self).wf(),
            match prop_adap {
                None => out is None && *final(self) == *old(self),
                Some(fused) => {
                    &&& *final(self) == old(self).spec_after(now, fused, nsm)
                    &&& out == Some(
                        ArbitratorOutput {
                            command: old(self).spec_command(now, fused, mtr_pid, nsm),
                            feedback: Self::spec_feedback(fused),
                        },
                    )
                    &&& fused.is_e_stop_triggered ==> out->0.command
                        == PropulsionPayload::spec_all_stop()
                    &&& out->0.command.is_safe(SCALE as int)
                },
            },
    {
        let Some(prop_adap_pload) = prop_adap else {
            return None;
        };
        self.target_speed = Some(prop_adap_pload.propulsion_payload.left_speed);
        self.e_stop_trig_fdbk = prop_adap_pload.is_e_stop_triggered;
        self.loop_mode_fdbk = prop_adap_pload.loop_state;

        let mut closed_loop_prop_payload = PropulsionPayload::all_stop();
        // lane keeping
        if let Some(mtr_pid_pload) = mtr_pid {
            if self.steerer_state != SteererState::Steering {
                closed_loop_prop_payload =
                self.closed_loop_handler(&mtr_pid_pload, &prop_adap_pload);
            }
        }
        // cornering
        if let Some(m) = nsm {
            if m.corner_coords.1 <= self.corner_y_coord_steering_trig {
                self.steerer_state = SteererState::Steering;
            }
            if self.steerer_state == SteererState::Steering {
                closed_loop_prop_payload = self.steering_handler(&prop_adap_pload, m);
            }
        }
        let prop_payload = match prop_adap_pload.loop_state {
            LoopState::Open => self.open_loop_handler_at(now, &prop_adap_pload),
            LoopState::Closed => closed_loop_prop_payload,
        };
        let herald_pload = AncPubPayload {
            e_stop_trig_fdbk: prop_adap_pload.is_e_stop_triggered,
            loop_mode_fdbk: prop_adap_pload.loop_state,
            distance: prop_adap_pload.distance,
        };
        Some(ArbitratorOutput { command: prop_payload, feedback: herald_pload })
    }

    /// One cycle: reads the clock, then decides. Whatever the clock read,
    /// the outcome is that of `process_at` for that reading.
    pub fn process(
        &mut self,
        clock: &cu29::clock::RobotClock,
        prop_adap: Option<PropulsionAdapterOutputPayload>,
        mtr_pid: Option<PIDControlOutputPayload>,
        nsm: Option<NsmPayload>,
    ) -> (out: Option<ArbitratorOutput>)
        requires
            old(self).wf(),
        ensures
            final(self).wf(),
            match prop_adap {
                None => out is None && *final(self) == *old(self),
                Some(fused) => {
                    &&& exists|now: u64|
                        {
                            &&& *final(self) == #[trigger] old(self).spec_after(now, fused, nsm)
                            &&& out->0.command == old(self).spec_command(
                                now,
                                fused,
                                mtr_pid,
                                nsm,
                            )
                        }
                    &&& out is Some
                    &&& out->0.feedback == Self::spec_feedback(fused)
                    &&& fused.is_e_stop_triggered ==> out->0.command
                        == PropulsionPayload::spec_all_stop()
                    &&& out->0.command.is_safe(SCALE as int)
                },
            },
    {
        let now: u64 = raw_now_nanos(clock);
        self.process_at(now, prop_adap, mtr_pid, nsm)
    }
}

impl Default for Arbitrator {
    fn default() -> (a: Self)
        ensures
            a == Self::spec_default(),
            a.wf(),
    {
        Arbitrator {
            e_stop_trig_fdbk: false,
            loop_mode_fdbk: LoopState::Closed,
            target_speed: None,
            r_wind_comp_lmtr: 0,
            r_wind_comp_rmtr: 0,
            corner_y_coord_steering_trig: 0,
            on_axis_rotation_duration_ms: ON_AXIS_ROTATION_DURATION_MILLISEC,
            steerer_state: SteererState::NotSteering,
            on_axis_rotator: OnAxisRotator::default(),
        }
    }
}

/// Under the emergency stop the command of a cycle halts both wheels,
/// whatever the loop mode, the controller's output, the vision signal, the
/// clock and the state of the maneuvers.
pub proof fn lemma_e_stop_halts(
    a: Arbitrator,
    now: u64,
    fused: PropulsionAdapterOutputPayload,
    pid: Option<PIDControlOutputPayload>,
    vision: Option<NsmPayload>,
)
    requires
        fused.is_e_stop_triggered,
    ensures
        a.spec_command(now, fused, pid, vision) == PropulsionPayload::spec_all_stop(),
{
}

/// Every command of a cycle keeps both speeds in `[0, 1]` and enables no
/// wheel that stops; a lane-keeping command keeps both speeds in `[0, 0.9]`.
pub proof fn lemma_command_is_safe(
    a: Arbitrator,
    now: u64,
    fused: PropulsionAdapterOutputPayload,
    pid: Option<PIDControlOutputPayload>,
    vision: Option<NsmPayload>,
)
    ensures
        a.spec_command(now, fused, pid, vision).is_safe(SCALE as int),
        pid is Some ==> a.spec_closed_loop(pid->0.output, fused).is_safe(
            LANE_KEEPING_MAX_SPEED as int,
        ),
{
}

/// Steady state: a cycle in which neither maneuver changes its state and
/// the commanded pivot stays what it was is repeated by the next cycle with
/// the same inputs, provided a running pivot's time is not spent by then.
/// The next cycle gives the same command and leaves the engine as it is.
pub proof fn lemma_steady_state_repeats(
    a: Arbitrator,
    first: u64,
    second: u64,
    fused: PropulsionAdapterOutputPayload,
    pid: Option<PIDControlOutputPayload>,
    vision: Option<NsmPayload>,
)
    requires
        a.spec_after(first, fused, vision).steerer_state == a.steerer_state,
        a.spec_after(first, fused, vision).on_axis_rotator.rotator_state
            == a.on_axis_rotator.rotator_state,
        a.spec_after(first, fused, vision).on_axis_rotator.current_cmd
            == a.on_axis_rotator.current_cmd,
        a.on_axis_rotator.rotator_state == RotateOnAxisState::Rotating ==> !OnAxisRotator::is_spent(
            a.on_axis_rotator.instant_rotating_started,
            second,
            a.on_axis_rotation_duration_ms,
        ),
    ensures
        a.spec_after(first, fused, vision).spec_command(second, fused, pid, vision)
            == a.spec_command(first, fused, pid, vision),
        a.spec_after(first, fused, vision).spec_after(second, fused, vision) == a.spec_after(
            first,
            fused,
            vision,
        ),
{
}

/// A pivot is bounded: in open loop without emergency stop, once the time
/// granted to a running pivot is spent, both directions are forced to
/// `Stop`, no wheel is enabled, and the maneuver is done, whatever
/// directions are commanded by then.
pub proof fn lemma_pivot_is_halted_when_spent(
    a: Arbitrator,
    now: u64,
    fused: PropulsionAdapterOutputPayload,
)
    requires
        a.wf(),
        !fused.is_e_stop_triggered,
        a.on_axis_rotator.rotator_state == RotateOnAxisState::Rotating,
        OnAxisRotator::is_spent(
            a.on_axis_rotator.instant_rotating_started,
            now,
            a.on_axis_rotation_duration_ms,
        ),
    ensures
        a.spec_open_loop(now, fused).left_direction == WheelDirection::Stop,
        a.spec_open_loop(now, fused).right_direction == WheelDirection::Stop,
        !a.spec_open_loop(now, fused).left_enable,
        !a.spec_open_loop(now, fused).right_enable,
        a.spec_rotator_after(now, fused).rotator_state == RotateOnAxisState::Done,
{
}

/// A halted pivot stays halted: while the same pivot is still commanded
/// after the maneuver is done, every cycle forces both directions to `Stop`
/// and leaves the maneuver done, whatever the clock reads.
pub proof fn lemma_stuck_pivot_stays_halted(
    a: Arbitrator,
    now: u64,
    fused: PropulsionAdapterOutputPayload,
)
    requires
        !fused.is_e_stop_triggered,
        a.on_axis_rotator.rotator_state == RotateOnAxisState::Done,
        a.on_axis_rotator.current_cmd != RotateOnAxisCmd::Free,
        RotateOnAxisCmd::spec_from_wheel_dir(
            fused.propulsion_payload.left_direction,
            fused.propulsion_payload.right_direction,
        ) == a.on_axis_rotator.current_cmd,
    ensures
        a.spec_open_loop(now, fused).left_direction == WheelDirection::Stop,
        a.spec_open_loop(now, fused).right_direction == WheelDirection::Stop,
        a.spec_rotator_after(now, fused).rotator_state == RotateOnAxisState::Done,
        a.spec_rotator_after(now, fused).current_cmd == a.on_axis_rotator.current_cmd,
{
}

/// A pivot that newly appears is granted: with a positive duration, the
/// cycle in which a pivot command follows no pivot keeps the commanded
/// directions and starts the maneuver at that cycle's clock reading.
pub proof fn lemma_new_pivot_is_granted(
    a: Arbitrator,
    now: u64,
    fused: PropulsionAdapterOutputPayload,
)
    requires
        !fused.is_e_stop_triggered,
        a.on_axis_rotation_duration_ms > 0,
        a.on_axis_rotator.rotator_state != RotateOnAxisState::Rotating,
        a.on_axis_rotator.current_cmd == RotateOnAxisCmd::Free,
        RotateOnAxisCmd::spec_from_wheel_dir(
            fused.propulsion_payload.left_direction,
            fused.propulsion_payload.right_direction,
        ) != RotateOnAxisCmd::Free,
    ensures
        a.spec_open_loop(now, fused).left_direction == fused.propulsion_payload.left_direction,
        a.spec_open_loop(now, fused).right_direction == fused.propulsion_payload.right_direction,
        a.spec_rotator_after(now, fused).rotator_state == RotateOnAxisState::Rotating,
        a.spec_rotator_after(now, fused).instant_rotating_started == now,
{
}

/// Cornering takes precedence: once the maneuver runs and the vision
/// signal is present, the closed-loop command is the cornering command,
/// with or without a controller's output.
pub proof fn lemma_cornering_overrides_lane_keeping(
    a: Arbitrator,
    fused: PropulsionAdapterOutputPayload,
    pid: Option<PIDControlOutputPayload>,
    vision: NsmPayload,
)
    requires
        vision.corner_coords.1 <= a.corner_y_coord_steering_trig || a.steerer_state
            == SteererState::Steering,
    ensures
        a.spec_closed_loop_cmd(fused, pid, Some(vision)) == a.spec_steering(fused, vision).1,
        !fused.is_e_stop_triggered && !Arbitrator::ends_steering(fused.weighted_error)
            ==> a.spec_steerer_after(fused, Some(vision)) == SteererState::Steering,
        !fused.is_e_stop_triggered && Arbitrator::ends_steering(fused.weighted_error) ==> {
            &&& a.spec_steerer_after(fused, Some(vision)) == SteererState::Done
            &&& a.spec_closed_loop_cmd(fused, pid, Some(vision)).left_speed == 0
            &&& a.spec_closed_loop_cmd(fused, pid, Some(vision)).right_speed == 0
        },
{
}

/// An obstacle nearer than the threshold halts the rover: the command that
/// arbitration gives for the state fused from such a reading is all-stop,
/// whatever the drive intent, the vision signal, the controller's output
/// and the state of the engine.
pub proof fn lemma_near_obstacle_halts(
    adapter: PropulsionAdapter,
    a: Arbitrator,
    fusion_time: u64,
    now: u64,
    intent: ZenohTopicsAdapterOutputPayload,
    distance: i64,
    pid: Option<PIDControlOutputPayload>,
    vision: Option<NsmPayload>,
)
    requires
        distance < adapter.e_stop_threshold_cm,
    ensures
        a.spec_command(
            now,
            adapter.spec_output(
                fusion_time,
                intent,
                HcSr04Payload { distance: Some(distance) },
                vision,
            ).fused,
            pid,
            vision,
        ) == PropulsionPayload::spec_all_stop(),
{
}

} // verus!
