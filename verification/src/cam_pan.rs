//! The position command of the panning camera.

use vstd::prelude::*;

verus! {

/// Where the camera is asked to look.
#[derive(Debug, Clone, Copy, PartialEq, Eq, Structural)]
pub enum PositionCommand {
    Front,
    Left,
    Right,
}

impl PositionCommand {
    /// The number that stands for this position.
    pub open spec fn spec_to_u8(self) -> u8 {
        match self {
            PositionCommand::Front => 0,
            PositionCommand::Left => 1,
            PositionCommand::Right => 2,
        }
    }

    /// The position that `x` stands for; a number that stands for none is
    /// read as `Front`.
    pub open spec fn spec_from_u8(x: u8) -> PositionCommand {
        if x == 1 {
            PositionCommand::Left
        } else if x == 2 {
            PositionCommand::Right
        } else {
            PositionCommand::Front
        }
    }

    /// The number that stands for this position.
    pub fn to_u8(self) -> (x: u8)
        ensures
            x == self.spec_to_u8(),
    {
        match self {
            PositionCommand::Front => 0,
            PositionCommand::Left => 1,
            PositionCommand::Right => 2,
        }
    }

    /// The position that `x` stands for, `Front` if it stands for none.
    pub fn from_u8(x: u8) -> (p: PositionCommand)
        ensures
            p == Self::spec_from_u8(x),
    {
        if x == 1 {
            PositionCommand::Left
        } else if x == 2 {
            PositionCommand::Right
        } else {
            PositionCommand::Front
        }
    }
}

impl Default for PositionCommand {
    fn default() -> (p: Self)
        ensures
            p == PositionCommand::Front,
    {
        PositionCommand::Front
    }
}

/// The command sent to the panning camera.
#[derive(Debug, Clone, Copy, PartialEq, Eq, Structural)]
pub struct CameraPanningPayload {
    pub pos_cmd: PositionCommand,
}

impl Default for CameraPanningPayload {
    fn default() -> (p: Self)
        ensures
            p.pos_cmd == PositionCommand::Front,
    {
        CameraPanningPayload { pos_cmd: PositionCommand::Front }
    }
}

/// Reading back the number of a position gives the position.
pub proof fn lemma_position_command_round_trip(p: PositionCommand)
    ensures
        PositionCommand::spec_from_u8(p.spec_to_u8()) == p,
{
}

/// The period of the servo's signal in nanoseconds.
pub const PERIOD_NS: u32 = 20_000_000;

/// The duty cycle that turns the camera to the front, in thousandths.
pub const DUTY_CYCLE_POS_FRONT: u32 = 75;

/// The duty cycle that turns the camera to the left, in thousandths.
pub const DUTY_CYCLE_POS_LEFT: u32 = 100;

/// The duty cycle that turns the camera to the right, in thousandths.
pub const DUTY_CYCLE_POS_RIGHT: u32 = 50;

/// How long the servo is given to settle, in milliseconds.
pub const SETTLE_MILLISEC: u64 = 1750;

/// How long the servo is given for one thousandth, in milliseconds.
pub const STEP_MILLISEC: u64 = 10;

/// One step of moving the servo.
#[derive(Debug, Clone, Copy, PartialEq, Eq)]
pub enum PanStep {
    /// Set the duty cycle, in thousandths.
    SetDutyCycle(u32),
    /// Wait for so many milliseconds.
    Wait(u64),
}

/// The duty cycle of a position, in thousandths.
pub open spec fn spec_target_duty_cycle(cmd: PositionCommand) -> u32 {
    match cmd {
        PositionCommand::Front => DUTY_CYCLE_POS_FRONT,
        PositionCommand::Left => DUTY_CYCLE_POS_LEFT,
        PositionCommand::Right => DUTY_CYCLE_POS_RIGHT,
    }
}

/// A ramp over the duty cycles from `lo` to `hi`, each followed by a
/// short wait; upwards, or downwards from `hi` to `lo`.
pub open spec fn spec_ramp(lo: u32, hi: u32, upwards: bool) -> Seq<PanStep> {
    Seq::new(
        (2 * (hi - lo + 1)) as nat,
        |i: int|
            if i % 2 == 1 {
                PanStep::Wait(STEP_MILLISEC)
            } else if upwards {
                PanStep::SetDutyCycle((lo + i / 2) as u32)
            } else {
                PanStep::SetDutyCycle((hi - i / 2) as u32)
            },
    )
}

/// The steps of one look: to the front, set and settle; to a side, ramp
/// between the front and the side upwards, settle, and ramp back down.
pub open spec fn spec_sweep(cmd: PositionCommand) -> Seq<PanStep> {
    let target = spec_target_duty_cycle(cmd);
    if target == DUTY_CYCLE_POS_FRONT {
        seq![PanStep::SetDutyCycle(DUTY_CYCLE_POS_FRONT), PanStep::Wait(SETTLE_MILLISEC)]
    } else {
        let lo = if target < DUTY_CYCLE_POS_FRONT {
            target
        } else {
            DUTY_CYCLE_POS_FRONT
        };
        let hi = if target < DUTY_CYCLE_POS_FRONT {
            DUTY_CYCLE_POS_FRONT
        } else {
            target
        };
        spec_ramp(lo, hi, true) + seq![PanStep::Wait(SETTLE_MILLISEC)] + spec_ramp(lo, hi, false)
    }
}

/// The duty cycle of a position, in thousandths.
pub fn target_duty_cycle(cmd: PositionCommand) -> (duty: u32)
    ensures
        duty == spec_target_duty_cycle(cmd),
{
    match cmd {
        PositionCommand::Front => DUTY_CYCLE_POS_FRONT,
        PositionCommand::Left => DUTY_CYCLE_POS_LEFT,
        PositionCommand::Right => DUTY_CYCLE_POS_RIGHT,
    }
}

/// Appends a ramp between `lo` and `hi` to `steps`.
fn push_ramp(steps: &mut Vec<PanStep>, lo: u32, hi: u32, upwards: bool)
    requires
        lo <= hi <= 1000,
    ensures
        final(steps)@ == old(steps)@ + spec_ramp(lo, hi, upwards),
{
    let ghost before = steps@;
    let mut k: u32 = 0;
    let n: u32 = hi - lo + 1;
    while k < n
        invariant
            lo <= hi <= 1000,
            n == hi - lo + 1,
            k <= n,
            steps@.len() == before.len() + 2 * k,
            forall|j: int| 0 <= j < before.len() ==> steps@[j] == before[j],
            forall|j: int|
                before.len() <= j < steps@.len() ==> steps@[j] == spec_ramp(lo, hi, upwards)[j
                    - before.len()],
        decreases n - k,
    {
        let duty: u32 = if upwards {
            lo + k
        } else {
            hi - k
        };
        steps.push(PanStep::SetDutyCycle(duty));
        steps.push(PanStep::Wait(STEP_MILLISEC));
        k += 1;
    }
    assert(steps@ =~= before + spec_ramp(lo, hi, upwards));
}

/// The steps of one look at the position `cmd`.
pub fn sweep(cmd: PositionCommand) -> (steps: Vec<PanStep>)
    ensures
        steps@ == spec_sweep(cmd),
{
    let target = target_duty_cycle(cmd);
    let start = DUTY_CYCLE_POS_FRONT;
    let mut steps: Vec<PanStep> = Vec::new();
    if target == start {
        steps.push(PanStep::SetDutyCycle(DUTY_CYCLE_POS_FRONT));
        steps.push(PanStep::Wait(SETTLE_MILLISEC));
        assert(steps@ =~= spec_sweep(cmd));
    } else {
        let (lo, hi) = if start < target {
            (start, target)
        } else {
            (target, start)
        };
        push_ramp(&mut steps, lo, hi, true);
        steps.push(PanStep::Wait(SETTLE_MILLISEC));
        push_ramp(&mut steps, lo, hi, false);
        assert(steps@ =~= spec_sweep(cmd));
    }
    steps
}

/// A look to a side passes through every duty cycle between the front and
/// the side, ends where it began, and never leaves that range.
pub proof fn lemma_sweep_stays_in_range(cmd: PositionCommand, i: int)
    requires
        0 <= i < spec_sweep(cmd).len(),
    ensures
        spec_sweep(cmd)[i] matches PanStep::SetDutyCycle(d) ==> DUTY_CYCLE_POS_RIGHT <= d
            <= DUTY_CYCLE_POS_LEFT,
        spec_sweep(cmd)[0] == PanStep::SetDutyCycle(
            if cmd == PositionCommand::Right {
                DUTY_CYCLE_POS_RIGHT
            } else {
                DUTY_CYCLE_POS_FRONT
            },
        ),
{
}

} // verus!
