//! The vision signal as the control tasks see it, kept across missing frames.

use vstd::prelude::*;
use crate::clock::raw_now_nanos;
use crate::opencv_iox2::{CornerDirection, OpenCViox2Payload};
use crate::sticky::{InputPolicy, StickyInput};

verus! {

/// The vision signal. `heading_error` and `abs_line_gradient` are fixed-point
/// numbers, `corner_coords` is `(x, y)` in `[0, 1]` from the top left.
#[derive(Debug, Clone, Copy, PartialEq, Eq)]
pub struct NsmPayload {
    pub abs_line_gradient: i64,
    pub heading_error: i64,
    pub corner_detected: bool,
    pub corner_coords: (i64, i64),
    pub corner_direction: CornerDirection,
    pub vertical_line_valid: bool,
}

impl NsmPayload {
    /// The signal that a report of the vision process carries.
    pub open spec fn spec_from(value: OpenCViox2Payload) -> NsmPayload {
        NsmPayload {
            abs_line_gradient: value.abs_line_gradient,
            heading_error: value.heading_error,
            corner_detected: value.corner_detected,
            corner_coords: value.corner_coords,
            corner_direction: value.corner_direction,
            vertical_line_valid: value.vertical_line_valid,
        }
    }

    /// The signal that a report of the vision process carries.
    pub fn from_report(value: &OpenCViox2Payload) -> (p: NsmPayload)
        ensures
            p == Self::spec_from(*value),
    {
        NsmPayload {
            abs_line_gradient: value.abs_line_gradient,
            heading_error: value.heading_error,
            corner_detected: value.corner_detected,
            corner_coords: value.corner_coords,
            corner_direction: value.corner_direction,
            vertical_line_valid: value.vertical_line_valid,
        }
    }
}

/// Hands the vision signal on and repeats the last one while frames are
/// missing, as far as its policy allows.
#[derive(Debug, PartialEq, Eq)]
pub struct OpenCvSplitter {
    pub input: StickyInput<NsmPayload>,
}

impl OpenCvSplitter {
    /// The signal, if any, that arrived with `report`.
    pub open spec fn spec_fresh(report: Option<OpenCViox2Payload>) -> Option<NsmPayload> {
        match report {
            Some(r) => Some(NsmPayload::spec_from(r)),
            None => None,
        }
    }

    /// The splitter after the cycle at `now`, and the signal it hands on.
    pub open spec fn spec_process(self, now: u64, report: Option<OpenCViox2Payload>) -> (
        OpenCvSplitter,
        Option<NsmPayload>,
    ) {
        (
            OpenCvSplitter { input: self.input.spec_after(Self::spec_fresh(report), now) },
            self.input.spec_value(Self::spec_fresh(report), now),
        )
    }

    /// A splitter that has seen no frame yet.
    pub fn new(policy: InputPolicy) -> (s: Self)
        ensures
            s.input.policy == policy,
            s.input.last_value is None,
            s.input.last_seen == 0,
    {
        OpenCvSplitter { input: StickyInput::new(policy) }
    }

    /// One cycle at clock reading `now`: the signal to hand on, if any.
    pub fn process_at(&mut self, now: u64, report: Option<OpenCViox2Payload>) -> (out: Option<
        NsmPayload,
    >)
        ensures
            (*final(self), out) == old(self).spec_process(now, report),
    {
        match report {
            Some(r) => {
                let fresh = NsmPayload::from_report(&r);
                self.input.observe(Some(fresh), now)
            },
            None => self.input.observe(None, now),
        }
    }

    /// One cycle: reads the clock and hands on the signal, if any. Whatever
    /// the clock read, the outcome is that of `process_at` for that reading.
    pub fn process(&mut self, clock: &cu29::clock::RobotClock, report: Option<OpenCViox2Payload>)
        -> (out: Option<NsmPayload>)
        ensures
            report matches Some(r) ==> out == Some(NsmPayload::spec_from(r)),
            exists|now: u64| (*final(self), out) == #[trigger] old(self).spec_process(now, report),
    {
        let now: u64 = raw_now_nanos(clock);
        self.process_at(now, report)
    }
}

} // verus!
