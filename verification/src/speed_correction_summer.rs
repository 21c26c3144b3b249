//! The final duty cycles: the speed controllers' corrections, the
//! feed-forward command and a boost for a stalled wheel are summed,
//! compensated and limited to `[0, 1]`.
//!
//! A stop takes precedence over all of that: a feed-forward command that
//! halts both wheels is handed on as it is, with no correction and no boost.

use vstd::prelude::*;
use crate::arbitrator::Arbitrator;
use crate::fixed::{clamp, clamp_i128, lemma_product_fits, mul_scaled, scaled_product, SCALE};
use crate::irencoder::IrEncoderPayload;
use crate::opencv_splitter::NsmPayload;
use crate::pid::PIDControlOutputPayload;
use crate::propulsion::PropulsionPayload;
use crate::propulsion_adapter::PropulsionAdapterOutputPayload;

verus! {

/// Compensation for the winding resistance of the left motor.
pub const R_WIND_COMP_LMTR: i64 = 1_100_000;

/// Compensation for the winding resistance of the right motor.
pub const R_WIND_COMP_RMTR: i64 = 1_000_000;

/// The largest magnitude of a controller's correction that is taken over.
pub const MAX_PID_CORRECTION: i64 = 250_000;

/// A wheel commanded at least this fast is expected to turn.
pub const STALL_CMD_THRESHOLD: i64 = 150_000;

/// A wheel measured slower than this does not turn.
pub const STALL_SPEED_THRESHOLD: i64 = 50_000;

/// What is added to the correction of a stalled wheel.
pub const STALL_BOOST: i64 = 300_000;

/// Sums the corrections and keeps the last command it produced.
#[derive(Debug, Clone, Copy, PartialEq, Eq)]
pub struct SpeedCorrectionSummer {
    pub last_output: Option<PropulsionPayload>,
    pub k_ff_lmtr: i64,
    pub k_ff_rmtr: i64,
    pub stall_cmd_threshold: i64,
    pub stall_speed_threshold: i64,
    pub stall_boost: i64,
}

/// A controller's correction: its output limited to the largest correction,
/// zero without an output.
pub open spec fn spec_correction(pid: Option<PIDControlOutputPayload>) -> int {
    match pid {
        Some(p) => clamp(p.output as int, -MAX_PID_CORRECTION as int, MAX_PID_CORRECTION as int),
        None => 0,
    }
}

/// The duty cycle of a wheel: the compensated sum of the correction, the
/// weighted feed-forward speed and the stall boost, limited to `[0, 1]`.
pub open spec fn spec_duty(comp: int, correction: int, k_ff: int, ff: int, boost: int) -> int {
    clamp(scaled_product(comp, correction + scaled_product(k_ff, ff) + boost), 0, SCALE as int)
}

/// Computes a controller's correction.
fn correction(pid: Option<PIDControlOutputPayload>) -> (c: i64)
    ensures
        c == spec_correction(pid),
{
    match pid {
        Some(p) => clamp_i128(p.output as i128, -MAX_PID_CORRECTION, MAX_PID_CORRECTION),
        None => 0,
    }
}

/// Computes the duty cycle of a wheel.
fn duty(comp: i64, correction: i64, k_ff: i64, ff: i64, boost: i64) -> (d: i64)
    requires
        0 <= comp <= R_WIND_COMP_LMTR,
        -MAX_PID_CORRECTION <= correction <= MAX_PID_CORRECTION,
    ensures
        d == spec_duty(comp as int, correction as int, k_ff as int, ff as int, boost as int),
        0 <= d <= SCALE,
{
    proof {
        lemma_product_fits(
            k_ff as int,
            ff as int,
            0x8000_0000_0000_0000,
            0x8000_0000_0000_0000,
        );
    }
    let weighted: i128 = mul_scaled(k_ff as i128, ff as i128);
    let summed: i128 = (correction as i128) + weighted + (boost as i128);
    proof {
        assert(-90_000_000_000_000_000_000_000_000_000_000 <= summed
            <= 90_000_000_000_000_000_000_000_000_000_000);
        lemma_product_fits(
            comp as int,
            summed as int,
            R_WIND_COMP_LMTR as int,
            90_000_000_000_000_000_000_000_000_000_000int,
        );
    }
    clamp_i128(mul_scaled(comp as i128, summed), 0, SCALE)
}

impl SpeedCorrectionSummer {
    /// A command that was kept has its speeds in `[0, 1]`.
    pub open spec fn wf(self) -> bool {
        self.last_output matches Some(o) ==> 0 <= o.left_speed <= SCALE && 0 <= o.right_speed
            <= SCALE
    }

    /// The summer before its first cycle, with the usual configuration.
    pub open spec fn spec_default() -> SpeedCorrectionSummer {
        SpeedCorrectionSummer {
            last_output: None,
            k_ff_lmtr: SCALE,
            k_ff_rmtr: SCALE,
            stall_cmd_threshold: STALL_CMD_THRESHOLD,
            stall_speed_threshold: STALL_SPEED_THRESHOLD,
            stall_boost: STALL_BOOST,
        }
    }

    /// A wheel is stalled: it was last commanded at least as fast as the
    /// command threshold and is measured slower than the speed threshold. A
    /// wheel that could not be read counts as standing still.
    pub open spec fn spec_is_stalled(self, last_speed: i64, measured: Option<i64>) -> bool {
        let actual = match measured {
            Some(v) => v,
            None => 0i64,
        };
        last_speed >= self.stall_cmd_threshold && actual < self.stall_speed_threshold
    }

    /// The boosts of the left and the right wheel: the configured boost for a
    /// stalled wheel, zero for the other, and zero for both while no command
    /// was produced yet or no encoder reading is present.
    pub open spec fn spec_stall_boosts(self, encoder: Option<IrEncoderPayload>) -> (i64, i64) {
        match (self.last_output, encoder) {
            (Some(last), Some(enc)) => (
                if self.spec_is_stalled(last.left_speed, enc.lmtr_normalized_rpm) {
                    self.stall_boost
                } else {
                    0i64
                },
                if self.spec_is_stalled(last.right_speed, enc.rmtr_normalized_rpm) {
                    self.stall_boost
                } else {
                    0i64
                },
            ),
            _ => (0i64, 0i64),
        }
    }

    /// The command for the feed-forward command `ff`: its enables and
    /// directions, with the duty cycle of each wheel as its speed.
    pub open spec fn spec_summed(
        self,
        lmtr_pid: Option<PIDControlOutputPayload>,
        rmtr_pid: Option<PIDControlOutputPayload>,
        ff: PropulsionPayload,
        encoder: Option<IrEncoderPayload>,
    ) -> PropulsionPayload {
        let boosts = self.spec_stall_boosts(encoder);
        PropulsionPayload {
            left_speed: spec_duty(
                R_WIND_COMP_LMTR as int,
                spec_correction(lmtr_pid),
                self.k_ff_lmtr as int,
                ff.left_speed as int,
                boosts.0 as int,
            ) as i64,
            right_speed: spec_duty(
                R_WIND_COMP_RMTR as int,
                spec_correction(rmtr_pid),
                self.k_ff_rmtr as int,
                ff.right_speed as int,
                boosts.1 as int,
            ) as i64,
            ..ff
        }
    }

    /// The command that a cycle hands out: all-stop where the feed-forward
    /// command is all-stop, whatever the corrections, the encoders and the
    /// command that was kept; the summed command for any other feed-forward
    /// command; and the command that was kept where none is present.
    pub open spec fn spec_output(
        self,
        lmtr_pid: Option<PIDControlOutputPayload>,
        rmtr_pid: Option<PIDControlOutputPayload>,
        feedforward: Option<PropulsionPayload>,
        encoder: Option<IrEncoderPayload>,
    ) -> Option<PropulsionPayload> {
        match feedforward {
            Some(ff) => if ff == PropulsionPayload::spec_all_stop() {
                Some(PropulsionPayload::spec_all_stop())
            } else {
                Some(self.spec_summed(lmtr_pid, rmtr_pid, ff, encoder))
            },
            None => self.last_output,
        }
    }

    /// A summer with the given feed-forward gains and the usual stall
    /// handling.
    pub fn new(k_ff_lmtr: i64, k_ff_rmtr: i64) -> (s: Self)
        ensures
            s == (SpeedCorrectionSummer { k_ff_lmtr, k_ff_rmtr, ..Self::spec_default() }),
            s.wf(),
    {
        SpeedCorrectionSummer {
            last_output: None,
            k_ff_lmtr,
            k_ff_rmtr,
            stall_cmd_threshold: STALL_CMD_THRESHOLD,
            stall_speed_threshold: STALL_SPEED_THRESHOLD,
            stall_boost: STALL_BOOST,
        }
    }

    /// A summer with the given feed-forward gains and stall handling.
    pub fn configured(
        k_ff_lmtr: i64,
        k_ff_rmtr: i64,
        stall_cmd_threshold: i64,
        stall_speed_threshold: i64,
        stall_boost: i64,
    ) -> (s: Self)
        ensures
            s == (SpeedCorrectionSummer {
                last_output: None,
                k_ff_lmtr,
                k_ff_rmtr,
                stall_cmd_threshold,
                stall_speed_threshold,
                stall_boost,
            }),
            s.wf(),
    {
        SpeedCorrectionSummer {
            last_output: None,
            k_ff_lmtr,
            k_ff_rmtr,
            stall_cmd_threshold,
            stall_speed_threshold,
            stall_boost,
        }
    }

    /// Whether a command that was kept has its speeds in `[0, 1]`.
    pub fn is_well_formed(&self) -> (ok: bool)
        ensures
            ok == self.wf(),
    {
        match self.last_output {
            Some(o) => 0 <= o.left_speed && o.left_speed <= SCALE && 0 <= o.right_speed
                && o.right_speed <= SCALE,
            None => true,
        }
    }

    /// The boosts of the left and the right wheel for this encoder reading.
    pub fn motor_stall_handler(&self, encoder: Option<IrEncoderPayload>) -> (boosts: (i64, i64))
        ensures
            boosts == self.spec_stall_boosts(encoder),
    {
        let last = match self.last_output {
            Some(lo) => lo,
            None => {
                return (0, 0);
            },
        };
        let enc = match encoder {
            Some(e) => e,
            None => {
                return (0, 0);
            },
        };
        let lmtr_actual: i64 = match enc.lmtr_normalized_rpm {
            Some(v) => v,
            None => 0,
        };
        let rmtr_actual: i64 = match enc.rmtr_normalized_rpm {
            Some(v) => v,
            None => 0,
        };
        let lmtr_boost: i64 = if last.left_speed >= self.stall_cmd_threshold && lmtr_actual
            < self.stall_speed_threshold {
            self.stall_boost
        } else {
            0
        };
        let rmtr_boost: i64 = if last.right_speed >= self.stall_cmd_threshold && rmtr_actual
            < self.stall_speed_threshold {
            self.stall_boost
        } else {
            0
        };
        (lmtr_boost, rmtr_boost)
    }

    /// One cycle. The stop is checked first: an all-stop feed-forward
    /// command is handed out as it is. The command handed out is kept for the
    /// cycles in which no feed-forward command arrives.
    pub fn process(
        &mut self,
        lmtr_pid: Option<PIDControlOutputPayload>,
        rmtr_pid: Option<PIDControlOutputPayload>,
        feedforward: Option<PropulsionPayload>,
        encoder: Option<IrEncoderPayload>,
    ) -> (out: Option<PropulsionPayload>)
        requires
            old(self).wf(),
        ensures
            final(self).wf(),
            out == old(self).spec_output(lmtr_pid, rmtr_pid, feedforward, encoder),
            *final(self) == (SpeedCorrectionSummer { last_output: out, ..*old(self) }),
            out matches Some(o) ==> 0 <= o.left_speed <= SCALE && 0 <= o.right_speed <= SCALE,
    {
        if let Some(ff) = feedforward {
            if ff.is_all_stop() {
                self.last_output = Some(ff);
                return self.last_output;
            }
        }
        let (lmtr_stall_boost, rmtr_stall_boost) = self.motor_stall_handler(encoder);
        if let Some(ff) = feedforward {
            let lmtr_pid_c = correction(lmtr_pid);
            let rmtr_pid_c = correction(rmtr_pid);
            let mut output_msg = ff;
            output_msg.left_speed = duty(
                R_WIND_COMP_LMTR,
                lmtr_pid_c,
                self.k_ff_lmtr,
                ff.left_speed,
                lmtr_stall_boost,
            );
            output_msg.right_speed = duty(
                R_WIND_COMP_RMTR,
                rmtr_pid_c,
                self.k_ff_rmtr,
                ff.right_speed,
                rmtr_stall_boost,
            );
            self.last_output = Some(output_msg);
        }
        self.last_output
    }
}

impl Default for SpeedCorrectionSummer {
    fn default() -> (s: Self)
        ensures
            s == Self::spec_default(),
            s.wf(),
    {
        Self::new(SCALE, SCALE)
    }
}

/// Steady state: where the command that a cycle hands out leaves the stall
/// boosts as they were, the next cycle with the same inputs hands out the
/// same command and leaves the summer as it is.
pub proof fn lemma_summer_steady_state_repeats(
    s: SpeedCorrectionSummer,
    lmtr_pid: Option<PIDControlOutputPayload>,
    rmtr_pid: Option<PIDControlOutputPayload>,
    feedforward: Option<PropulsionPayload>,
    encoder: Option<IrEncoderPayload>,
)
    requires
        (SpeedCorrectionSummer {
            last_output: s.spec_output(lmtr_pid, rmtr_pid, feedforward, encoder),
            ..s
        }).spec_stall_boosts(encoder) == s.spec_stall_boosts(encoder),
    ensures
        (SpeedCorrectionSummer {
            last_output: s.spec_output(lmtr_pid, rmtr_pid, feedforward, encoder),
            ..s
        }).spec_output(lmtr_pid, rmtr_pid, feedforward, encoder) == s.spec_output(
            lmtr_pid,
            rmtr_pid,
            feedforward,
            encoder,
        ),
{
}

/// A stalled wheel is boosted: a wheel last commanded at least as fast as
/// the command threshold and measured slower than the speed threshold gets
/// the configured boost added to its correction; the other wheel's boost is
/// decided alone by its own speeds.
pub proof fn lemma_stalled_wheel_is_boosted(
    s: SpeedCorrectionSummer,
    last: PropulsionPayload,
    encoder: IrEncoderPayload,
)
    requires
        s.last_output == Some(last),
        s.spec_is_stalled(last.left_speed, encoder.lmtr_normalized_rpm),
    ensures
        s.spec_stall_boosts(Some(encoder)).0 == s.stall_boost,
        s.spec_stall_boosts(Some(encoder)).1 == if s.spec_is_stalled(
            last.right_speed,
            encoder.rmtr_normalized_rpm,
        ) {
            s.stall_boost
        } else {
            0i64
        },
{
}

/// Every duty cycle lies in `[0, 1]`.
pub proof fn lemma_duty_in_range(comp: int, correction: int, k_ff: int, ff: int, boost: int)
    ensures
        0 <= spec_duty(comp, correction, k_ff, ff, boost) <= SCALE,
{
}

/// The summed command is as safe as the feed-forward command: its speeds
/// lie in `[0, 1]`, and where the feed-forward command enables no wheel that
/// stops, neither does the summed command.
pub proof fn lemma_summed_is_safe(
    s: SpeedCorrectionSummer,
    lmtr_pid: Option<PIDControlOutputPayload>,
    rmtr_pid: Option<PIDControlOutputPayload>,
    ff: PropulsionPayload,
    encoder: Option<IrEncoderPayload>,
    max: int,
)
    requires
        ff.is_safe(max),
    ensures
        s.spec_summed(lmtr_pid, rmtr_pid, ff, encoder).is_safe(SCALE as int),
        s.spec_summed(lmtr_pid, rmtr_pid, ff, encoder).left_enable == ff.left_enable,
        s.spec_summed(lmtr_pid, rmtr_pid, ff, encoder).right_enable == ff.right_enable,
        s.spec_summed(lmtr_pid, rmtr_pid, ff, encoder).left_direction == ff.left_direction,
        s.spec_summed(lmtr_pid, rmtr_pid, ff, encoder).right_direction == ff.right_direction,
{
}

/// A stop passes the summer unchanged: for an all-stop feed-forward
/// command the cycle hands out all-stop, whatever the corrections, the
/// encoders and the command that was kept; and all-stop is what is kept, so
/// that the next cycle finds no wheel stalled.
pub proof fn lemma_all_stop_passes_unchanged(
    s: SpeedCorrectionSummer,
    lmtr_pid: Option<PIDControlOutputPayload>,
    rmtr_pid: Option<PIDControlOutputPayload>,
    encoder: Option<IrEncoderPayload>,
    next_encoder: Option<IrEncoderPayload>,
)
    requires
        s.stall_cmd_threshold > 0,
    ensures
        s.spec_output(lmtr_pid, rmtr_pid, Some(PropulsionPayload::spec_all_stop()), encoder)
            == Some(PropulsionPayload::spec_all_stop()),
        (SpeedCorrectionSummer {
            last_output: s.spec_output(
                lmtr_pid,
                rmtr_pid,
                Some(PropulsionPayload::spec_all_stop()),
                encoder,
            ),
            ..s
        }).spec_stall_boosts(next_encoder) == (0i64, 0i64),
{
}

/// The emergency stop reaches the wheels: for the command that
/// arbitration gives under the emergency stop, the summer hands out all-stop,
/// whatever the state of the engine and of the summer, the corrections and
/// the encoders.
pub proof fn lemma_e_stop_reaches_the_wheels(
    a: Arbitrator,
    now: u64,
    fused: PropulsionAdapterOutputPayload,
    lane_pid: Option<PIDControlOutputPayload>,
    vision: Option<NsmPayload>,
    s: SpeedCorrectionSummer,
    lmtr_pid: Option<PIDControlOutputPayload>,
    rmtr_pid: Option<PIDControlOutputPayload>,
    encoder: Option<IrEncoderPayload>,
)
    requires
        fused.is_e_stop_triggered,
    ensures
        s.spec_output(
            lmtr_pid,
            rmtr_pid,
            Some(a.spec_command(now, fused, lane_pid, vision)),
            encoder,
        ) == Some(PropulsionPayload::spec_all_stop()),
{
}

/// Every command that a cycle hands out for a feed-forward command has its
/// speeds in `[0, 1]`, and enables no wheel that stops where the feed-forward
/// command enables none.
pub proof fn lemma_output_is_safe(
    s: SpeedCorrectionSummer,
    lmtr_pid: Option<PIDControlOutputPayload>,
    rmtr_pid: Option<PIDControlOutputPayload>,
    ff: PropulsionPayload,
    encoder: Option<IrEncoderPayload>,
    max: int,
)
    requires
        ff.is_safe(max),
    ensures
        s.spec_output(lmtr_pid, rmtr_pid, Some(ff), encoder) is Some,
        s.spec_output(lmtr_pid, rmtr_pid, Some(ff), encoder)->0.is_safe(SCALE as int),
{
}

} // verus!
