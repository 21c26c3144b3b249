//! The on-axis rotation (pivot) maneuver: a pivot is granted for a bounded
//! time after the command first appears, and halted once that time is spent.

use vstd::prelude::*;
use crate::clock::raw_now_nanos;
use crate::propulsion::WheelDirection;

verus! {

/// How long a pivot may last unless configured otherwise, in milliseconds.
pub const ON_AXIS_ROTATION_DURATION_MILLISEC: u64 = 5250;

/// The pivot that a pair of wheel directions asks for.
#[derive(Debug, Clone, Copy, PartialEq, Eq, Structural)]
pub enum RotateOnAxisCmd {
    Free,
    RotateLeft,
    RotateRight,
}

/// Where the pivot maneuver stands.
#[derive(Debug, Clone, Copy, PartialEq, Eq, Structural)]
pub enum RotateOnAxisState {
    Init,
    Rotating,
    Done,
}

impl RotateOnAxisCmd {
    /// Left wheel forward with right wheel reverse pivots right, the
    /// opposite pair pivots left, and every other pair is no pivot.
    pub open spec fn spec_from_wheel_dir(left: WheelDirection, right: WheelDirection) -> Self {
        if left == WheelDirection::Forward && right == WheelDirection::Reverse {
            RotateOnAxisCmd::RotateRight
        } else if left == WheelDirection::Reverse && right == WheelDirection::Forward {
            RotateOnAxisCmd::RotateLeft
        } else {
            RotateOnAxisCmd::Free
        }
    }

    /// The pivot that the two wheel directions ask for.
    pub fn from_wheel_dir(left: WheelDirection, right: WheelDirection) -> (cmd: Self)
        ensures
            cmd == Self::spec_from_wheel_dir(left, right),
    {
        match (left, right) {
            (WheelDirection::Forward, WheelDirection::Reverse) => RotateOnAxisCmd::RotateRight,
            (WheelDirection::Reverse, WheelDirection::Forward) => RotateOnAxisCmd::RotateLeft,
            _ => RotateOnAxisCmd::Free,
        }
    }
}

/// A pivot command newly appears: it follows no pivot, or the opposite pivot.
pub open spec fn is_rising_edge(last: RotateOnAxisCmd, current: RotateOnAxisCmd) -> bool {
    current != RotateOnAxisCmd::Free && last != current
}

/// Decides whether `last` followed by `current` is a newly appearing pivot.
pub fn rising_edge(last: RotateOnAxisCmd, current: RotateOnAxisCmd) -> (edge: bool)
    ensures
        edge == is_rising_edge(last, current),
{
    match (last, current) {
        (RotateOnAxisCmd::Free, RotateOnAxisCmd::RotateLeft) => true,
        (RotateOnAxisCmd::Free, RotateOnAxisCmd::RotateRight) => true,
        (RotateOnAxisCmd::RotateLeft, RotateOnAxisCmd::RotateRight) => true,
        (RotateOnAxisCmd::RotateRight, RotateOnAxisCmd::RotateLeft) => true,
        _ => false,
    }
}

/// The state of the pivot maneuver. `instant_rotating_started` is a clock
/// reading in nanoseconds and means something only while `Rotating`.
#[derive(Debug, Clone, Copy, PartialEq, Eq)]
pub struct OnAxisRotator {
    pub current_cmd: RotateOnAxisCmd,
    pub last_cmd: RotateOnAxisCmd,
    pub rotator_state: RotateOnAxisState,
    pub instant_rotating_started: u64,
}

impl OnAxisRotator {
    /// The rotator before any command was seen.
    pub open spec fn spec_default() -> Self {
        OnAxisRotator {
            current_cmd: RotateOnAxisCmd::Free,
            last_cmd: RotateOnAxisCmd::Free,
            rotator_state: RotateOnAxisState::Init,
            instant_rotating_started: 0,
        }
    }

    /// A pivot that is running has a pivot command.
    pub open spec fn inv(self) -> bool {
        self.rotator_state == RotateOnAxisState::Rotating ==> self.current_cmd
            != RotateOnAxisCmd::Free
    }

    /// The rotator after it has seen the wheel directions of a cycle. While a
    /// pivot is running the command is latched and nothing changes.
    pub open spec fn spec_observe(self, left: WheelDirection, right: WheelDirection) -> Self {
        if self.rotator_state == RotateOnAxisState::Rotating {
            self
        } else {
            OnAxisRotator {
                current_cmd: RotateOnAxisCmd::spec_from_wheel_dir(left, right),
                last_cmd: self.current_cmd,
                ..self
            }
        }
    }

    /// A pivot starts at this reading: the command newly appeared and none is running.
    pub open spec fn starts_rotating(self) -> bool {
        is_rising_edge(self.last_cmd, self.current_cmd) && self.rotator_state
            != RotateOnAxisState::Rotating
    }

    /// Nanoseconds from `started` to `now`, zero if the clock went backwards.
    pub open spec fn elapsed_nanos(started: u64, now: u64) -> int {
        if now >= started {
            now - started
        } else {
            0
        }
    }

    /// The time granted to a pivot that started at `started` is spent at `now`.
    pub open spec fn is_spent(started: u64, now: u64, duration_ms: u64) -> bool {
        Self::elapsed_nanos(started, now) >= duration_ms * 1_000_000
    }

    /// The rotator after the decision of one cycle, taken at clock reading `now`.
    pub open spec fn spec_after_decision(self, now: u64, duration_ms: u64) -> Self {
        if self.starts_rotating() {
            if Self::is_spent(now, now, duration_ms) {
                OnAxisRotator {
                    rotator_state: RotateOnAxisState::Done,
                    instant_rotating_started: now,
                    ..self
                }
            } else {
                OnAxisRotator {
                    rotator_state: RotateOnAxisState::Rotating,
                    instant_rotating_started: now,
                    ..self
                }
            }
        } else if self.rotator_state == RotateOnAxisState::Rotating && Self::is_spent(
            self.instant_rotating_started,
            now,
            duration_ms,
        ) {
            OnAxisRotator { rotator_state: RotateOnAxisState::Done, ..self }
        } else {
            self
        }
    }

    /// Whether the commanded directions may stand after the decision: they
    /// may unless the pivot's time is spent.
    pub open spec fn spec_may_rotate(self, now: u64, duration_ms: u64) -> bool {
        self.spec_after_decision(now, duration_ms).rotator_state != RotateOnAxisState::Done
    }

    /// Whether a running pivot has a pivot command.
    pub fn holds_inv(&self) -> (ok: bool)
        ensures
            ok == self.inv(),
    {
        self.rotator_state != RotateOnAxisState::Rotating || self.current_cmd
            != RotateOnAxisCmd::Free
    }

    /// The rotator after one cycle: it takes note of the wheel directions
    /// and, where they command a pivot or one is latched, decides at clock
    /// reading `now`.
    pub open spec fn spec_cycle(
        self,
        left: WheelDirection,
        right: WheelDirection,
        now: u64,
        duration_ms: u64,
    ) -> Self {
        let seen = self.spec_observe(left, right);
        if seen.current_cmd != RotateOnAxisCmd::Free {
            seen.spec_after_decision(now, duration_ms)
        } else {
            seen
        }
    }

    /// The pivot is halted in a cycle: a pivot is commanded or latched, and
    /// its time is spent.
    pub open spec fn spec_halted(
        self,
        left: WheelDirection,
        right: WheelDirection,
        now: u64,
        duration_ms: u64,
    ) -> bool {
        let seen = self.spec_observe(left, right);
        seen.current_cmd != RotateOnAxisCmd::Free && !seen.spec_may_rotate(now, duration_ms)
    }

    /// The rotator after one cycle at each of the clock readings `times`, in
    /// their order, with the same wheel directions commanded in each.
    pub open spec fn spec_run(
        self,
        left: WheelDirection,
        right: WheelDirection,
        times: Seq<u64>,
        duration_ms: u64,
    ) -> Self
        decreases times.len(),
    {
        if times.len() == 0 {
            self
        } else {
            self.spec_run(left, right, times.drop_last(), duration_ms).spec_cycle(
                left,
                right,
                times.last(),
                duration_ms,
            )
        }
    }

    /// One cycle at clock reading `now`: takes note of the wheel directions,
    /// decides, and says whether the pivot is halted.
    pub fn cycle(
        &mut self,
        left: WheelDirection,
        right: WheelDirection,
        now: u64,
        duration_ms: u64,
    ) -> (halted: bool)
        ensures
            *final(self) == old(self).spec_cycle(left, right, now, duration_ms),
            halted == old(self).spec_halted(left, right, now, duration_ms),
    {
        self.update_current_cmd_from_wheel_dir(left, right);
        if self.current_cmd != RotateOnAxisCmd::Free {
            let (should_rotate, _cmd) = self.should_rotate_at(now, duration_ms);
            !should_rotate
        } else {
            false
        }
    }

    /// Takes note of the wheel directions commanded in this cycle.
    pub fn update_current_cmd_from_wheel_dir(
        &mut self,
        left_wheel_dir: WheelDirection,
        right_wheel_dir: WheelDirection,
    )
        ensures
            *final(self) == old(self).spec_observe(left_wheel_dir, right_wheel_dir),
    {
        if self.rotator_state != RotateOnAxisState::Rotating {
            self.last_cmd = self.current_cmd;
            self.current_cmd = RotateOnAxisCmd::from_wheel_dir(left_wheel_dir, right_wheel_dir);
        }
    }

    /// Decides, at clock reading `now`, whether the pivot may go on.
    ///
    /// Returns `(true, Some(cmd))` when the commanded directions stand, and
    /// `(false, None)` when the pivot's time is spent and the wheels must stop.
    pub fn should_rotate_at(&mut self, now: u64, duration_ms: u64) -> (verdict: (
        bool,
        Option<RotateOnAxisCmd>,
    ))
        ensures
            *final(self) == old(self).spec_after_decision(now, duration_ms),
            verdict.0 == old(self).spec_may_rotate(now, duration_ms),
            verdict.1 == if verdict.0 {
                Some(old(self).current_cmd)
            } else {
                None::<RotateOnAxisCmd>
            },
    {
        if rising_edge(self.last_cmd, self.current_cmd) && self.rotator_state
            != RotateOnAxisState::Rotating {
            self.instant_rotating_started = now;
            self.rotator_state = RotateOnAxisState::Rotating;
        }
        if self.rotator_state == RotateOnAxisState::Rotating {
            let elapsed: u64 = match now.checked_sub(self.instant_rotating_started) {
                Some(e) => e,
                None => 0,
            };
            let granted: u128 = (duration_ms as u128) * 1_000_000;
            if elapsed as u128 >= granted {
                self.rotator_state = RotateOnAxisState::Done;
            }
        }
        if self.rotator_state == RotateOnAxisState::Done {
            (false, None)
        } else {
            (true, Some(self.current_cmd))
        }
    }

    /// Reads the clock and decides whether the pivot may go on. Whatever the
    /// clock read, the outcome is that of `should_rotate_at` for that reading.
    pub fn should_rotate(&mut self, clock: &cu29::clock::RobotClock, duration_ms: u64) -> (verdict:
        (bool, Option<RotateOnAxisCmd>))
        ensures
            exists|now: u64|
                {
                    &&& *final(self) == #[trigger] old(self).spec_after_decision(now, duration_ms)
                    &&& verdict.0 == old(self).spec_may_rotate(now, duration_ms)
                },
            verdict.1 == if verdict.0 {
                Some(old(self).current_cmd)
            } else {
                None::<RotateOnAxisCmd>
            },
    {
        let now: u64 = raw_now_nanos(clock);
        self.should_rotate_at(now, duration_ms)
    }
}

impl Default for OnAxisRotator {
    fn default() -> (r: Self)
        ensures
            r == Self::spec_default(),
            r.inv(),
    {
        OnAxisRotator {
            current_cmd: RotateOnAxisCmd::Free,
            last_cmd: RotateOnAxisCmd::Free,
            rotator_state: RotateOnAxisState::Init,
            instant_rotating_started: 0,
        }
    }
}

/// A running pivot always has a pivot command: this holds of the rotator
/// before any command was seen, and taking note of wheel directions and
/// deciding both keep it.
pub proof fn lemma_running_pivot_has_a_command(
    r: OnAxisRotator,
    left: WheelDirection,
    right: WheelDirection,
    now: u64,
    duration_ms: u64,
)
    ensures
        OnAxisRotator::spec_default().inv(),
        r.inv() ==> r.spec_observe(left, right).inv(),
        r.inv() ==> r.spec_after_decision(now, duration_ms).inv(),
{
}

/// Once the time of a running pivot is spent, the decision is to stop, at
/// that reading of the clock and at every later one.
pub proof fn lemma_spent_pivot_stops(r: OnAxisRotator, now: u64, later: u64, duration_ms: u64)
    requires
        r.rotator_state == RotateOnAxisState::Rotating,
        OnAxisRotator::is_spent(r.instant_rotating_started, now, duration_ms),
        now <= later,
    ensures
        !r.spec_may_rotate(now, duration_ms),
        !r.spec_may_rotate(later, duration_ms),
        r.spec_after_decision(now, duration_ms).rotator_state == RotateOnAxisState::Done,
{
}

/// Before the time of a running pivot is spent, the decision is to go on
/// and nothing changes.
pub proof fn lemma_running_pivot_goes_on(r: OnAxisRotator, now: u64, duration_ms: u64)
    requires
        r.rotator_state == RotateOnAxisState::Rotating,
        !OnAxisRotator::is_spent(r.instant_rotating_started, now, duration_ms),
    ensures
        r.spec_may_rotate(now, duration_ms),
        r.spec_after_decision(now, duration_ms) == r,
{
}

/// While one pivot stays commanded from its first appearance on, the
/// rotator has that pivot as its command after every cycle, and the
/// maneuver is either running since the first cycle's clock reading or done.
proof fn lemma_sustained_pivot_state(
    r: OnAxisRotator,
    left: WheelDirection,
    right: WheelDirection,
    times: Seq<u64>,
    duration_ms: u64,
    k: int,
)
    requires
        RotateOnAxisCmd::spec_from_wheel_dir(left, right) != RotateOnAxisCmd::Free,
        r.current_cmd == RotateOnAxisCmd::Free,
        r.rotator_state != RotateOnAxisState::Rotating,
        1 <= k <= times.len(),
    ensures
        r.spec_run(left, right, times.take(k), duration_ms).current_cmd
            == RotateOnAxisCmd::spec_from_wheel_dir(left, right),
        r.spec_run(left, right, times.take(k), duration_ms).rotator_state
            == RotateOnAxisState::Done || (r.spec_run(
            left,
            right,
            times.take(k),
            duration_ms,
        ).rotator_state == RotateOnAxisState::Rotating && r.spec_run(
            left,
            right,
            times.take(k),
            duration_ms,
        ).instant_rotating_started == times[0]),
    decreases k,
{
    let head = times.take(k);
    assert(head.drop_last() =~= times.take(k - 1));
    assert(head.last() == times[k - 1]);
    if k == 1 {
        assert(times.take(0).len() == 0);
        assert(r.spec_run(left, right, times.take(0), duration_ms) == r);
    } else {
        lemma_sustained_pivot_state(r, left, right, times, duration_ms, k - 1);
    }
}

/// A sustained pivot is halted: while one pivot stays commanded from its
/// first appearance on, every cycle whose clock reading lies the granted
/// time or more after the first cycle's is halted. The first cycle is the one
/// at `times[0]`; the rotator `r` is the one before it.
pub proof fn lemma_sustained_pivot_is_halted(
    r: OnAxisRotator,
    left: WheelDirection,
    right: WheelDirection,
    times: Seq<u64>,
    duration_ms: u64,
    k: int,
)
    requires
        RotateOnAxisCmd::spec_from_wheel_dir(left, right) != RotateOnAxisCmd::Free,
        r.current_cmd == RotateOnAxisCmd::Free,
        r.rotator_state != RotateOnAxisState::Rotating,
        0 <= k < times.len(),
        times[k] - times[0] >= duration_ms * 1_000_000,
    ensures
        r.spec_run(left, right, times.take(k), duration_ms).spec_halted(
            left,
            right,
            times[k],
            duration_ms,
        ),
{
    if k == 0 {
        assert(times.take(0).len() == 0);
        assert(r.spec_run(left, right, times.take(0), duration_ms) == r);
    } else {
        lemma_sustained_pivot_state(r, left, right, times, duration_ms, k);
    }
}

/// A sustained pivot goes on until its time is spent: while one pivot
/// stays commanded from its first appearance on, no cycle is halted as long
/// as every clock reading so far lies less than the granted time after the
/// first cycle's.
pub proof fn lemma_sustained_pivot_goes_on(
    r: OnAxisRotator,
    left: WheelDirection,
    right: WheelDirection,
    times: Seq<u64>,
    duration_ms: u64,
    k: int,
)
    requires
        RotateOnAxisCmd::spec_from_wheel_dir(left, right) != RotateOnAxisCmd::Free,
        r.current_cmd == RotateOnAxisCmd::Free,
        r.rotator_state != RotateOnAxisState::Rotating,
        0 <= k < times.len(),
        forall|j: int|
            0 <= j <= k ==> !OnAxisRotator::is_spent(times[0], #[trigger] times[j], duration_ms),
    ensures
        !r.spec_run(left, right, times.take(k), duration_ms).spec_halted(
            left,
            right,
            times[k],
            duration_ms,
        ),
        r.spec_run(left, right, times.take(k + 1), duration_ms).rotator_state
            == RotateOnAxisState::Rotating,
        r.spec_run(left, right, times.take(k + 1), duration_ms).instant_rotating_started
            == times[0],
    decreases k,
{
    let head = times.take(k + 1);
    assert(head.drop_last() =~= times.take(k));
    assert(head.last() == times[k]);
    assert(!OnAxisRotator::is_spent(times[0], times[0], duration_ms));
    assert(!OnAxisRotator::is_spent(times[0], times[k], duration_ms));
    if k == 0 {
        assert(times.take(0).len() == 0);
        assert(r.spec_run(left, right, times.take(0), duration_ms) == r);
    } else {
        lemma_sustained_pivot_goes_on(r, left, right, times, duration_ms, k - 1);
        lemma_sustained_pivot_state(r, left, right, times, duration_ms, k);
    }
}

} // verus!
