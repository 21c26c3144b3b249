//! What to do with an input that may be missing in a cycle.

use vstd::prelude::*;

verus! {

/// How long a sticky input is reused unless configured otherwise, in
/// milliseconds.
pub const DEFAULT_STALENESS_TIMEOUT_MS: u64 = 500;

/// The policy of one input.
#[derive(Debug, Clone, Copy, PartialEq, Eq)]
pub enum InputPolicy {
    /// The last value is reused while it is younger than the timeout.
    Sticky { timeout_ms: u64 },
    /// Without a value in this cycle the input is absent.
    RequireFresh,
}

/// An input together with the last value it delivered and the clock
/// reading, in nanoseconds, at which it did.
#[derive(Debug, PartialEq, Eq)]
pub struct StickyInput<T> {
    pub policy: InputPolicy,
    pub last_value: Option<T>,
    pub last_seen: u64,
}

/// A value seen at `seen` is still younger than `timeout_ms` at `now`.
pub open spec fn is_live(seen: u64, now: u64, timeout_ms: u64) -> bool {
    now < seen || now - seen < timeout_ms * 1_000_000
}

impl<T: Copy> StickyInput<T> {
    /// The input after the cycle at `now` in which `fresh` arrived.
    pub open spec fn spec_after(self, fresh: Option<T>, now: u64) -> Self {
        match fresh {
            Some(v) => StickyInput { last_value: Some(v), last_seen: now, ..self },
            None => self,
        }
    }

    /// The value that the cycle at `now` works with when `fresh` arrived.
    pub open spec fn spec_value(self, fresh: Option<T>, now: u64) -> Option<T> {
        match fresh {
            Some(v) => Some(v),
            None => match self.policy {
                InputPolicy::RequireFresh => None,
                InputPolicy::Sticky { timeout_ms } => if is_live(self.last_seen, now, timeout_ms) {
                    self.last_value
                } else {
                    None
                },
            },
        }
    }

    /// An input that has delivered nothing yet.
    pub fn new(policy: InputPolicy) -> (input: Self)
        ensures
            input.policy == policy,
            input.last_value is None,
            input.last_seen == 0,
    {
        StickyInput { policy, last_value: None, last_seen: 0 }
    }

    /// Takes what arrived in the cycle at `now` and returns the value that
    /// the cycle works with.
    pub fn observe(&mut self, fresh: Option<T>, now: u64) -> (value: Option<T>)
        ensures
            *final(self) == old(self).spec_after(fresh, now),
            value == old(self).spec_value(fresh, now),
    {
        match fresh {
            Some(v) => {
                self.last_value = Some(v);
                self.last_seen = now;
                Some(v)
            },
            None => match self.policy {
                InputPolicy::RequireFresh => None,
                InputPolicy::Sticky { timeout_ms } => {
                    if now < self.last_seen {
                        self.last_value
                    } else {
                        let age: u128 = (now - self.last_seen) as u128;
                        let limit: u128 = (timeout_ms as u128) * 1_000_000;
                        if age < limit {
                            self.last_value
                        } else {
                            None
                        }
                    }
                },
            },
        }
    }
}

/// A value that arrives is the value of its cycle, and is still the value of
/// every later cycle without arrival that lies within the timeout.
pub proof fn lemma_sticky_holds_until_timeout<T: Copy>(
    input: StickyInput<T>,
    v: T,
    seen: u64,
    later: u64,
    timeout_ms: u64,
)
    requires
        input.policy == (InputPolicy::Sticky { timeout_ms }),
        seen <= later,
    ensures
        input.spec_value(Some(v), seen) == Some(v),
        input.spec_after(Some(v), seen).spec_value(None, later) == if later - seen < timeout_ms
            * 1_000_000 {
            Some(v)
        } else {
            None::<T>
        },
{
}

/// An input that requires freshness never hands out an old value.
pub proof fn lemma_require_fresh_is_absent<T: Copy>(input: StickyInput<T>, now: u64)
    requires
        input.policy == InputPolicy::RequireFresh,
    ensures
        input.spec_value(None, now) is None,
{
}

} // verus!
