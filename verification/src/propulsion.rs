//! The per-wheel drive command and the wheel direction it carries.

use vstd::prelude::*;

verus! {

/// The direction in which one wheel is driven.
#[derive(Debug, Clone, Copy, PartialEq, Eq, Structural)]
pub enum WheelDirection {
    Forward,
    Reverse,
    Stop,
}

impl WheelDirection {
    /// The number that stands for this direction wherever it is stored or sent.
    pub open spec fn spec_tag(self) -> u8 {
        match self {
            WheelDirection::Forward => 0,
            WheelDirection::Reverse => 1,
            WheelDirection::Stop => 2,
        }
    }

    /// The number that stands for this direction wherever it is stored or sent.
    pub fn tag(self) -> (t: u8)
        ensures
            t == self.spec_tag(),
    {
        match self {
            WheelDirection::Forward => 0,
            WheelDirection::Reverse => 1,
            WheelDirection::Stop => 2,
        }
    }

    /// The direction that `tag` stands for, if any.
    pub fn from_tag(tag: u8) -> (d: Option<WheelDirection>)
        ensures
            tag > 2 <==> d is None,
            d matches Some(w) ==> w.spec_tag() == tag,
    {
        if tag == 0 {
            Some(WheelDirection::Forward)
        } else if tag == 1 {
            Some(WheelDirection::Reverse)
        } else if tag == 2 {
            Some(WheelDirection::Stop)
        } else {
            None
        }
    }
}

impl Default for WheelDirection {
    fn default() -> (d: Self)
        ensures
            d == WheelDirection::Forward,
    {
        WheelDirection::Forward
    }
}

/// What both wheels are asked to do in one control cycle. Speeds are
/// fixed-point duty cycles.
#[derive(Debug, Clone, Copy, PartialEq, Eq)]
pub struct PropulsionPayload {
    pub left_enable: bool,
    pub right_enable: bool,
    pub left_speed: i64,
    pub right_speed: i64,
    pub left_direction: WheelDirection,
    pub right_direction: WheelDirection,
}

impl PropulsionPayload {
    /// The command that halts both wheels.
    pub open spec fn spec_all_stop() -> PropulsionPayload {
        PropulsionPayload {
            left_enable: false,
            right_enable: false,
            left_speed: 0,
            right_speed: 0,
            left_direction: WheelDirection::Stop,
            right_direction: WheelDirection::Stop,
        }
    }

    /// Both speeds lie in `[0, max]`, and a wheel whose direction is `Stop`
    /// is not enabled.
    pub open spec fn is_safe(self, max: int) -> bool {
        &&& 0 <= self.left_speed <= max
        &&& 0 <= self.right_speed <= max
        &&& self.left_direction == WheelDirection::Stop ==> !self.left_enable
        &&& self.right_direction == WheelDirection::Stop ==> !self.right_enable
    }

    /// Whether this is the command that halts both wheels.
    pub fn is_all_stop(&self) -> (halted: bool)
        ensures
            halted == (*self == Self::spec_all_stop()),
    {
        !self.left_enable && !self.right_enable && self.left_speed == 0 && self.right_speed == 0
            && self.left_direction == WheelDirection::Stop && self.right_direction
            == WheelDirection::Stop
    }

    /// The command that halts both wheels.
    pub fn all_stop() -> (p: PropulsionPayload)
        ensures
            p == Self::spec_all_stop(),
    {
        PropulsionPayload {
            left_enable: false,
            right_enable: false,
            left_speed: 0,
            right_speed: 0,
            left_direction: WheelDirection::Stop,
            right_direction: WheelDirection::Stop,
        }
    }
}

impl Default for PropulsionPayload {
    /// Both wheels disabled at speed zero, each with the default direction.
    fn default() -> (p: Self)
        ensures
            p == (PropulsionPayload {
                left_enable: false,
                right_enable: false,
                left_speed: 0,
                right_speed: 0,
                left_direction: WheelDirection::Forward,
                right_direction: WheelDirection::Forward,
            }),
    {
        PropulsionPayload {
            left_enable: false,
            right_enable: false,
            left_speed: 0,
            right_speed: 0,
            left_direction: WheelDirection::Forward,
            right_direction: WheelDirection::Forward,
        }
    }
}

/// Injectivity of the direction tag: two directions with one tag are the same.
pub proof fn lemma_wheel_direction_tag_injective(a: WheelDirection, b: WheelDirection)
    requires
        a.spec_tag() == b.spec_tag(),
    ensures
        a == b,
{
}

/// The levels of the two input pins of one motor of the driver.
#[derive(Debug, Clone, Copy, PartialEq, Eq)]
pub struct DirectionPair(pub u8, pub u8);

impl DirectionPair {
    /// The pin levels for a direction: forward is low-high, reverse is
    /// high-low, stop is low-low.
    pub open spec fn spec_of(direction: WheelDirection) -> DirectionPair {
        match direction {
            WheelDirection::Forward => DirectionPair(0, 1),
            WheelDirection::Reverse => DirectionPair(1, 0),
            WheelDirection::Stop => DirectionPair(0, 0),
        }
    }

    /// The pin levels for a direction.
    pub fn of(direction: WheelDirection) -> (pair: DirectionPair)
        ensures
            pair == Self::spec_of(direction),
    {
        match direction {
            WheelDirection::Forward => DirectionPair(0, 1),
            WheelDirection::Reverse => DirectionPair(1, 0),
            WheelDirection::Stop => DirectionPair(0, 0),
        }
    }
}

/// A speed by name.
#[derive(Debug, Clone, Copy, PartialEq, Eq, Structural)]
pub enum Speed {
    ReallySlow,
    Slow,
    NotSlow,
}

/// The duty cycle of `Speed::ReallySlow`.
pub const REALLY_SLOW: i64 = 200_000;

/// The duty cycle of `Speed::Slow`.
pub const SLOW: i64 = 400_000;

/// The duty cycle of `Speed::NotSlow`.
pub const NOT_SLOW: i64 = 800_000;

impl Speed {
    /// The duty cycle that a named speed stands for.
    pub open spec fn spec_duty_cycle(speed: Speed) -> i64 {
        match speed {
            Speed::ReallySlow => REALLY_SLOW,
            Speed::Slow => SLOW,
            Speed::NotSlow => NOT_SLOW,
        }
    }

    /// The duty cycle that the named speed `speed` stands for.
    pub fn get_duty_cycle(&self, speed: Speed) -> (duty: i64)
        ensures
            duty == Self::spec_duty_cycle(speed),
    {
        match speed {
            Speed::ReallySlow => REALLY_SLOW,
            Speed::Slow => SLOW,
            Speed::NotSlow => NOT_SLOW,
        }
    }
}

impl Default for Speed {
    fn default() -> (s: Self)
        ensures
            s == Speed::ReallySlow,
    {
        Speed::ReallySlow
    }
}

/// What the sink knows of one wheel.
#[derive(Debug, Clone, Copy, PartialEq, Eq)]
pub struct WheelState {
    pub enable: bool,
    pub direction: WheelDirection,
    pub speed: i64,
}

impl WheelState {
    /// A wheel at rest.
    pub open spec fn spec_default() -> WheelState {
        WheelState { enable: false, direction: WheelDirection::Stop, speed: 0 }
    }

    /// A wheel at rest.
    pub fn default() -> (w: Self)
        ensures
            w == Self::spec_default(),
    {
        WheelState { enable: false, direction: WheelDirection::Stop, speed: 0 }
    }
}

/// The pins of the motor driver.
#[derive(Debug, Clone, Copy, PartialEq, Eq)]
pub struct PropulsionPinAssignments {
    pub l298n_en_a_pin: u32,
    pub l298n_en_b_pin: u32,
    pub l298n_in_1_pin: u32,
    pub l298n_in_2_pin: u32,
    pub l298n_in_3_pin: u32,
    pub l298n_in_4_pin: u32,
}

/// What has to be done to the motor driver in one cycle, in this order:
/// switch the enables where a switch is given, set the two duty cycles, set
/// the four input pins.
#[derive(Debug, Clone, Copy, PartialEq, Eq)]
pub struct Actuation {
    /// The new state of the left enable, where it has to change.
    pub left_enable_switch: Option<bool>,
    /// The new state of the right enable, where it has to change.
    pub right_enable_switch: Option<bool>,
    pub left_duty_cycle: i64,
    pub right_duty_cycle: i64,
    pub in_1: u8,
    pub in_2: u8,
    pub in_3: u8,
    pub in_4: u8,
}

/// The sink of drive commands: it decides what to do to the motor driver.
#[derive(Debug, Clone, Copy, PartialEq, Eq)]
pub struct Propulsion {
    pub left_wheel: WheelState,
    pub right_wheel: WheelState,
    pub pin_assignments: PropulsionPinAssignments,
}

impl Propulsion {
    /// The switch of an enable: its wanted state where that differs from
    /// the state it is in.
    pub open spec fn spec_switch(wanted: bool, is_enabled: bool) -> Option<bool> {
        if wanted != is_enabled {
            Some(wanted)
        } else {
            None
        }
    }

    /// The actuation for a command. The right motor is wired the other way
    /// round, so its pair of levels is swapped.
    pub open spec fn spec_actuation(
        en_a_is_enabled: bool,
        en_b_is_enabled: bool,
        payload: PropulsionPayload,
    ) -> Actuation {
        Actuation {
            left_enable_switch: Self::spec_switch(payload.left_enable, en_a_is_enabled),
            right_enable_switch: Self::spec_switch(payload.right_enable, en_b_is_enabled),
            left_duty_cycle: payload.left_speed,
            right_duty_cycle: payload.right_speed,
            in_1: DirectionPair::spec_of(payload.left_direction).0,
            in_2: DirectionPair::spec_of(payload.left_direction).1,
            in_3: DirectionPair::spec_of(payload.right_direction).1,
            in_4: DirectionPair::spec_of(payload.right_direction).0,
        }
    }

    /// The actuation that halts the driver: both duty cycles zero, all pins low.
    pub open spec fn spec_halt() -> Actuation {
        Actuation {
            left_enable_switch: None,
            right_enable_switch: None,
            left_duty_cycle: 0,
            right_duty_cycle: 0,
            in_1: 0,
            in_2: 0,
            in_3: 0,
            in_4: 0,
        }
    }

    /// A sink for a driver on the given pins, both wheels at rest.
    pub fn new(pin_assignments: PropulsionPinAssignments) -> (p: Self)
        ensures
            p == (Propulsion {
                left_wheel: WheelState::spec_default(),
                right_wheel: WheelState::spec_default(),
                pin_assignments,
            }),
    {
        Propulsion {
            left_wheel: WheelState::default(),
            right_wheel: WheelState::default(),
            pin_assignments,
        }
    }

    /// One cycle: given whether the two enables are on, what to do for the
    /// command. Without a command nothing is done and nothing changes; with
    /// one, the sink remembers the wanted enables.
    pub fn process(
        &mut self,
        en_a_is_enabled: bool,
        en_b_is_enabled: bool,
        payload: Option<PropulsionPayload>,
    ) -> (plan: Option<Actuation>)
        ensures
            match payload {
                Some(p) => {
                    &&& plan == Some(Self::spec_actuation(en_a_is_enabled, en_b_is_enabled, p))
                    &&& *final(self) == (Propulsion {
                        left_wheel: WheelState { enable: p.left_enable, ..old(self).left_wheel },
                        right_wheel: WheelState { enable: p.right_enable, ..old(self).right_wheel },
                        ..*old(self)
                    })
                },
                None => plan is None && *final(self) == *old(self),
            },
    {
        let Some(payload) = payload else {
            return None;
        };
        let left_enable_switch = if payload.left_enable {
            self.left_wheel.enable = true;
            if en_a_is_enabled {
                None
            } else {
                Some(true)
            }
        } else {
            self.left_wheel.enable = false;
            if en_a_is_enabled {
                Some(false)
            } else {
                None
            }
        };
        let right_enable_switch = if payload.right_enable {
            self.right_wheel.enable = true;
            if en_b_is_enabled {
                None
            } else {
                Some(true)
            }
        } else {
            self.right_wheel.enable = false;
            if en_b_is_enabled {
                Some(false)
            } else {
                None
            }
        };
        let DirectionPair(in_1_val, in_2_val) = DirectionPair::of(payload.left_direction);
        // The right motor is wired the other way round.
        let DirectionPair(in_3_val, in_4_val) = DirectionPair::of(payload.right_direction);
        Some(
            Actuation {
                left_enable_switch,
                right_enable_switch,
                left_duty_cycle: payload.left_speed,
                right_duty_cycle: payload.right_speed,
                in_1: in_1_val,
                in_2: in_2_val,
                in_3: in_4_val,
                in_4: in_3_val,
            },
        )
    }

    /// What to do to the driver on shutdown.
    pub fn stop(&self) -> (plan: Actuation)
        ensures
            plan == Self::spec_halt(),
    {
        Actuation {
            left_enable_switch: None,
            right_enable_switch: None,
            left_duty_cycle: 0,
            right_duty_cycle: 0,
            in_1: 0,
            in_2: 0,
            in_3: 0,
            in_4: 0,
        }
    }
}

/// The all-stop command drives all four pins low and both duty cycles to
/// zero, as the shutdown does.
pub proof fn lemma_all_stop_drives_pins_low(en_a_is_enabled: bool, en_b_is_enabled: bool)
    ensures
        Propulsion::spec_actuation(
            en_a_is_enabled,
            en_b_is_enabled,
            PropulsionPayload::spec_all_stop(),
        ) == (Actuation {
            left_enable_switch: Propulsion::spec_switch(false, en_a_is_enabled),
            right_enable_switch: Propulsion::spec_switch(false, en_b_is_enabled),
            ..Propulsion::spec_halt()
        }),
{
}

} // verus!
