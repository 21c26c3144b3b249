//! The inner speed loop's error: how far each wheel's measured speed is
//! from its share of the total measured speed, the shares being those of the
//! commanded speeds.

use vstd::prelude::*;
use crate::clock::now_nanos;
use crate::fixed::{
    clamp, clamp_i128, div_floor, lemma_div_floor_bounds, lemma_product_fits, mul_scaled, saturate,
    scaled_product, scaled_quotient,
};
use crate::irencoder::IrEncoderPayload;
use crate::propulsion::PropulsionPayload;
use crate::speed_ctrlrs::{LmtrSpeedErrPayload, RmtrSpeedErrPayload};

verus! {

/// The largest measured speed that is taken at face value.
pub const MAX_MEASURED_SPEED: i64 = 900_000;

/// The share of each wheel while nothing is commanded.
pub const EVEN_SHARE: i64 = 500_000;

/// The two speed errors of one cycle and the time, in nanoseconds, with
/// which they are stamped.
#[derive(Debug, Clone, Copy, PartialEq, Eq)]
pub struct SpeedErrOutput {
    pub lmtr: LmtrSpeedErrPayload,
    pub rmtr: RmtrSpeedErrPayload,
    pub tov: u64,
}

/// Keeps the last measured speed of each wheel and computes the errors.
#[derive(Debug, Clone, Copy, PartialEq, Eq)]
pub struct SpeedErrAdapter {
    pub lmtr_speed_err: Option<i64>,
    pub rmtr_speed_err: Option<i64>,
    pub lmtr_actual: i64,
    pub rmtr_actual: i64,
}

/// The measured speed of a wheel after a cycle: the reading limited to
/// `[0, 0.9]`, or the speed held before where the wheel was not read.
pub open spec fn spec_measured(held: i64, reading: Option<i64>) -> i64 {
    match reading {
        Some(v) => clamp(v as int, 0, MAX_MEASURED_SPEED as int) as i64,
        None => held,
    }
}

/// The shares of the left and the right wheel in the commanded speed: each
/// wheel's commanded speed over their sum, or an even split where the sum is
/// not positive or nothing is commanded.
pub open spec fn spec_target_ratio(cmd: Option<PropulsionPayload>) -> (int, int) {
    match cmd {
        Some(c) => {
            let total = c.left_speed + c.right_speed;
            if total > 0 {
                (
                    scaled_quotient(c.left_speed as int, total),
                    scaled_quotient(c.right_speed as int, total),
                )
            } else {
                (EVEN_SHARE as int, EVEN_SHARE as int)
            }
        },
        None => (EVEN_SHARE as int, EVEN_SHARE as int),
    }
}

/// The error of a wheel: its measured speed less its share of the total
/// measured speed, limited to what an `i64` holds.
pub open spec fn spec_speed_error(actual: int, total_actual: int, ratio: int) -> int {
    saturate(actual - scaled_product(total_actual, ratio))
}

/// Computes the error of a wheel.
fn speed_error(actual: i64, total_actual: i128, ratio: i128) -> (e: i64)
    requires
        0 <= total_actual <= 2 * MAX_MEASURED_SPEED,
        -0x8000_0000_0000_0000 * 1_000_000 <= ratio <= 0x8000_0000_0000_0000 * 1_000_000,
    ensures
        e == spec_speed_error(actual as int, total_actual as int, ratio as int),
{
    proof {
        lemma_product_fits(
            total_actual as int,
            ratio as int,
            2 * MAX_MEASURED_SPEED as int,
            0x8000_0000_0000_0000int * 1_000_000,
        );
    }
    let target: i128 = mul_scaled(total_actual, ratio);
    clamp_i128((actual as i128) - target, i64::MIN, i64::MAX)
}

impl SpeedErrAdapter {
    /// The held speeds lie in `[0, 0.9]`.
    pub open spec fn wf(self) -> bool {
        &&& 0 <= self.lmtr_actual <= MAX_MEASURED_SPEED
        &&& 0 <= self.rmtr_actual <= MAX_MEASURED_SPEED
    }

    /// The adapter after a cycle with the given inputs.
    pub open spec fn spec_after(
        self,
        encoder: Option<IrEncoderPayload>,
        cmd: Option<PropulsionPayload>,
    ) -> SpeedErrAdapter {
        let l = match encoder {
            Some(e) => spec_measured(self.lmtr_actual, e.lmtr_normalized_rpm),
            None => self.lmtr_actual,
        };
        let r = match encoder {
            Some(e) => spec_measured(self.rmtr_actual, e.rmtr_normalized_rpm),
            None => self.rmtr_actual,
        };
        let ratio = spec_target_ratio(cmd);
        SpeedErrAdapter {
            lmtr_actual: l,
            rmtr_actual: r,
            lmtr_speed_err: Some(spec_speed_error(l as int, l + r, ratio.0) as i64),
            rmtr_speed_err: Some(spec_speed_error(r as int, l + r, ratio.1) as i64),
        }
    }

    /// An adapter that has measured nothing yet.
    pub fn new() -> (a: Self)
        ensures
            a == (SpeedErrAdapter {
                lmtr_speed_err: None,
                rmtr_speed_err: None,
                lmtr_actual: 0,
                rmtr_actual: 0,
            }),
            a.wf(),
    {
        SpeedErrAdapter { lmtr_speed_err: None, rmtr_speed_err: None, lmtr_actual: 0, rmtr_actual: 0 }
    }

    /// Whether the held speeds lie in `[0, 0.9]`.
    pub fn is_well_formed(&self) -> (ok: bool)
        ensures
            ok == self.wf(),
    {
        0 <= self.lmtr_actual && self.lmtr_actual <= MAX_MEASURED_SPEED && 0 <= self.rmtr_actual
            && self.rmtr_actual <= MAX_MEASURED_SPEED
    }

    /// The shares of the two wheels in the commanded speed.
    pub fn target_ratio(cmd: Option<PropulsionPayload>) -> (ratio: (i128, i128))
        ensures
            (ratio.0 as int, ratio.1 as int) == spec_target_ratio(cmd),
            -0x8000_0000_0000_0000 * 1_000_000 <= ratio.0 <= 0x8000_0000_0000_0000 * 1_000_000,
            -0x8000_0000_0000_0000 * 1_000_000 <= ratio.1 <= 0x8000_0000_0000_0000 * 1_000_000,
    {
        match cmd {
            Some(c) => {
                let total_cmd: i128 = (c.left_speed as i128) + (c.right_speed as i128);
                if total_cmd > 0 {
                    proof {
                        lemma_div_floor_bounds(c.left_speed * 1_000_000, total_cmd as int);
                        lemma_div_floor_bounds(c.right_speed * 1_000_000, total_cmd as int);
                    }
                    (
                        div_floor((c.left_speed as i128) * 1_000_000, total_cmd),
                        div_floor((c.right_speed as i128) * 1_000_000, total_cmd),
                    )
                } else {
                    (EVEN_SHARE as i128, EVEN_SHARE as i128)
                }
            },
            None => (EVEN_SHARE as i128, EVEN_SHARE as i128),
        }
    }

    /// One cycle at time `now`: takes the measured speeds and hands out the
    /// two errors.
    pub fn process_at(
        &mut self,
        now: u64,
        encoder: Option<IrEncoderPayload>,
        cmd: Option<PropulsionPayload>,
    ) -> (out: SpeedErrOutput)
        requires
            old(self).wf(),
        ensures
            final(self).wf(),
            *final(self) == old(self).spec_after(encoder, cmd),
            Some(out.lmtr.error) == final(self).lmtr_speed_err,
            Some(out.rmtr.error) == final(self).rmtr_speed_err,
            out.tov == now,
    {
        if let Some(actual_speed) = encoder {
            if let Some(lmtr) = actual_speed.lmtr_normalized_rpm {
                self.lmtr_actual = clamp_i128(lmtr as i128, 0, MAX_MEASURED_SPEED);
            }
            if let Some(rmtr) = actual_speed.rmtr_normalized_rpm {
                self.rmtr_actual = clamp_i128(rmtr as i128, 0, MAX_MEASURED_SPEED);
            }
        }
        let (lmtr_target_ratio, rmtr_target_ratio) = Self::target_ratio(cmd);
        let total_actual: i128 = (self.lmtr_actual as i128) + (self.rmtr_actual as i128);
        let lmtr_speed_err = speed_error(self.lmtr_actual, total_actual, lmtr_target_ratio);
        let rmtr_speed_err = speed_error(self.rmtr_actual, total_actual, rmtr_target_ratio);
        self.lmtr_speed_err = Some(lmtr_speed_err);
        self.rmtr_speed_err = Some(rmtr_speed_err);
        SpeedErrOutput {
            lmtr: LmtrSpeedErrPayload { error: lmtr_speed_err },
            rmtr: RmtrSpeedErrPayload { error: rmtr_speed_err },
            tov: now,
        }
    }

    /// One cycle: reads the clock for the time stamp, then does as
    /// `process_at`.
    pub fn process(
        &mut self,
        clock: &cu29::clock::RobotClock,
        encoder: Option<IrEncoderPayload>,
        cmd: Option<PropulsionPayload>,
    ) -> (out: SpeedErrOutput)
        requires
            old(self).wf(),
        ensures
            final(self).wf(),
            *final(self) == old(self).spec_after(encoder, cmd),
            Some(out.lmtr.error) == final(self).lmtr_speed_err,
            Some(out.rmtr.error) == final(self).rmtr_speed_err,
    {
        let now: u64 = now_nanos(clock);
        self.process_at(now, encoder, cmd)
    }
}

/// Steady state: a second cycle with the same inputs leaves the adapter as
/// the first cycle left it, and so hands out the same errors.
pub proof fn lemma_speed_err_steady_state_repeats(
    a: SpeedErrAdapter,
    encoder: Option<IrEncoderPayload>,
    cmd: Option<PropulsionPayload>,
)
    ensures
        a.spec_after(encoder, cmd).spec_after(encoder, cmd) == a.spec_after(encoder, cmd),
{
}

/// The held speeds stay in `[0, 0.9]` whatever the encoders read.
pub proof fn lemma_measured_in_range(held: i64, reading: Option<i64>)
    requires
        0 <= held <= MAX_MEASURED_SPEED,
    ensures
        0 <= spec_measured(held, reading) <= MAX_MEASURED_SPEED,
{
}

/// Wheels commanded equally fast have even shares.
pub proof fn lemma_equal_commands_share_evenly(cmd: PropulsionPayload)
    requires
        cmd.left_speed == cmd.right_speed,
    ensures
        spec_target_ratio(Some(cmd)) == (EVEN_SHARE as int, EVEN_SHARE as int),
{
    let c = cmd.left_speed as int;
    if c + c > 0 {
        assert(c * 1_000_000 == 500_000 * (c + c) + 0) by (nonlinear_arith);
        vstd::arithmetic::div_mod::lemma_fundamental_div_mod_converse(
            c * 1_000_000,
            c + c,
            500_000,
            0,
        );
    }
}

/// With even shares, wheels measured equally fast have no error.
pub proof fn lemma_even_wheels_have_no_error(actual: int)
    ensures
        spec_speed_error(actual, actual + actual, EVEN_SHARE as int) == 0,
{
    assert((actual + actual) * 500_000 == actual * 1_000_000) by (nonlinear_arith);
    vstd::arithmetic::div_mod::lemma_fundamental_div_mod_converse(
        actual * 1_000_000,
        1_000_000,
        actual,
        0,
    );
}

} // verus!
