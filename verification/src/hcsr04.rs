//! The reading of the ultrasonic distance sensor, kept over failed reads
//! for as long as its policy allows.

use vstd::prelude::*;
use crate::clock::raw_now_nanos;
use crate::sticky::{InputPolicy, StickyInput};

verus! {

/// The distance to the nearest obstacle in fixed-point centimetres, `None`
/// while there is no reading to go by.
#[derive(Debug, Clone, Copy, PartialEq, Eq)]
pub struct HcSr04Payload {
    pub distance: Option<i64>,
}

impl Default for HcSr04Payload {
    fn default() -> (p: Self)
        ensures
            p.distance is None,
    {
        HcSr04Payload { distance: None }
    }
}

/// The distance sensor's task: it holds the last good distance together
/// with the clock reading at which it was read.
#[derive(Debug, PartialEq, Eq)]
pub struct CuHcSr04 {
    pub input: StickyInput<i64>,
}

impl CuHcSr04 {
    /// The task after the cycle at clock reading `now`, and the payload of
    /// that cycle. `read` is the distance just read, `None` where the read
    /// failed. The payload carries the distance read, or, where the read
    /// failed, the last good one as long as the policy lets it stand in.
    pub open spec fn spec_process(self, now: u64, read: Option<i64>) -> (CuHcSr04, HcSr04Payload) {
        (
            CuHcSr04 { input: self.input.spec_after(read, now) },
            HcSr04Payload { distance: self.input.spec_value(read, now) },
        )
    }

    /// A task with the given policy that has read nothing yet.
    pub fn new(policy: InputPolicy) -> (task: Self)
        ensures
            task.input.policy == policy,
            task.input.last_value is None,
            task.input.last_seen == 0,
    {
        CuHcSr04 { input: StickyInput::new(policy) }
    }

    /// One cycle at clock reading `now`.
    pub fn process_at(&mut self, now: u64, read: Option<i64>) -> (payload: HcSr04Payload)
        ensures
            (*final(self), payload) == old(self).spec_process(now, read),
    {
        HcSr04Payload { distance: self.input.observe(read, now) }
    }

    /// One cycle: reads the clock, then does as `process_at`. Whatever
    /// the clock read, a distance that was read is the one handed out.
    pub fn process(&mut self, clock: &cu29::clock::RobotClock, read: Option<i64>) -> (payload:
        HcSr04Payload)
        ensures
            read is Some ==> payload.distance == read,
            exists|now: u64| (*final(self), payload) == #[trigger] old(self).spec_process(now, read),
    {
        let now: u64 = raw_now_nanos(clock);
        self.process_at(now, read)
    }
}

/// A good distance stands in for failed reads until its timeout, and not
/// beyond: after a distance was read at `seen`, a failed read at `later`
/// hands out that distance exactly while less than the timeout has passed.
pub proof fn lemma_distance_expires(
    task: CuHcSr04,
    distance: i64,
    seen: u64,
    later: u64,
    timeout_ms: u64,
)
    requires
        task.input.policy == (InputPolicy::Sticky { timeout_ms }),
        seen <= later,
    ensures
        task.spec_process(seen, Some(distance)).1.distance == Some(distance),
        task.spec_process(seen, Some(distance)).0.spec_process(later, None).1.distance == if later
            - seen < timeout_ms * 1_000_000 {
            Some(distance)
        } else {
            None::<i64>
        },
{
}

} // verus!
