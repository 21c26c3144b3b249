//! Readings of the robot clock.

use vstd::prelude::*;

verus! {

/// The robot clock of the `cu29` runtime, carried through as an opaque value.
#[verifier::external_type_specification]
#[verifier::external_body]
pub struct ExRobotClock(cu29::clock::RobotClock);

/// Calls `RobotClock::raw_now` and returns the instant in nanoseconds, as
/// `CuInstant::as_nanos` gives it. This is the timeline on which elapsed time
/// is measured. Nothing is claimed about the reading.
#[verifier::external_body]
pub(crate) fn raw_now_nanos(clock: &cu29::clock::RobotClock) -> (nanos: u64) {
    clock.raw_now().as_nanos()
}

/// Calls `RobotClock::now` and returns the execution time in nanoseconds, as
/// `CuTime::as_nanos` gives it. This is the time with which messages are
/// stamped. Nothing is claimed about the reading.
#[verifier::external_body]
pub(crate) fn now_nanos(clock: &cu29::clock::RobotClock) -> (nanos: u64) {
    clock.now().as_nanos()
}

} // verus!
