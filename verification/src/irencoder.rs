//! The reading of the two wheel encoders.

use vstd::prelude::*;

verus! {

/// The measured speed of each wheel as a fixed-point fraction of the
/// largest speed, `None` for a wheel that could not be read.
#[derive(Debug, Clone, Copy, PartialEq, Eq)]
pub struct IrEncoderPayload {
    pub lmtr_normalized_rpm: Option<i64>,
    pub rmtr_normalized_rpm: Option<i64>,
}

impl IrEncoderPayload {
    /// The payload for the outcome of reading the two encoders: both
    /// speeds where both were read, none where either failed.
    pub open spec fn spec_from_readings(left: Option<i64>, right: Option<i64>) -> IrEncoderPayload {
        if left is Some && right is Some {
            IrEncoderPayload { lmtr_normalized_rpm: left, rmtr_normalized_rpm: right }
        } else {
            IrEncoderPayload { lmtr_normalized_rpm: None, rmtr_normalized_rpm: None }
        }
    }

    /// The payload for the outcome of reading the two encoders.
    pub fn from_readings(left: Option<i64>, right: Option<i64>) -> (p: IrEncoderPayload)
        ensures
            p == Self::spec_from_readings(left, right),
    {
        match (left, right) {
            (Some(l), Some(r)) => IrEncoderPayload {
                lmtr_normalized_rpm: Some(l),
                rmtr_normalized_rpm: Some(r),
            },
            _ => IrEncoderPayload { lmtr_normalized_rpm: None, rmtr_normalized_rpm: None },
        }
    }
}

impl Default for IrEncoderPayload {
    fn default() -> (p: Self)
        ensures
            p.lmtr_normalized_rpm is None,
            p.rmtr_normalized_rpm is None,
    {
        IrEncoderPayload { lmtr_normalized_rpm: None, rmtr_normalized_rpm: None }
    }
}

/// The wheel encoders' task: it hands out the reading of each cycle and
/// keeps it.
#[derive(Debug, Clone, Copy, PartialEq, Eq)]
pub struct CuIrEncoder {
    pub last_value: Option<IrEncoderPayload>,
}

impl CuIrEncoder {
    /// A task that has read nothing yet.
    pub fn new() -> (task: Self)
        ensures
            task.last_value is None,
    {
        CuIrEncoder { last_value: None }
    }

    /// One cycle: `left` and `right` are the speeds just read, `None` for
    /// a wheel whose read failed.
    pub fn process(&mut self, left: Option<i64>, right: Option<i64>) -> (payload: IrEncoderPayload)
        ensures
            payload == IrEncoderPayload::spec_from_readings(left, right),
            final(self).last_value == Some(payload),
    {
        let payload = IrEncoderPayload::from_readings(left, right);
        self.last_value = Some(payload);
        payload
    }
}

} // verus!
