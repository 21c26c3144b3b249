//! Quantities that carry their unit, and the states of the ultrasonic
//! sensor's two lines.

use vstd::prelude::*;

verus! {

/// The state of the trigger line.
#[derive(Debug, Clone, Copy, PartialEq, Eq, Structural)]
pub enum TrigState {
    NotTriggered,
    Triggered,
}

/// The state of the echo line.
#[derive(Debug, Clone, Copy, PartialEq, Eq, Structural)]
pub enum EchoState {
    NotTransmitted,
    Transmitted,
    Reflected,
}

/// A distance, a fixed-point number of millimetres or of centimetres.
#[derive(Debug, Clone, Copy, PartialEq, Eq)]
pub enum DistanceUnit {
    Mm(i64),
    Cm(i64),
}

/// A velocity, a fixed-point number of metres or of centimetres per second.
#[derive(Debug, Clone, Copy, PartialEq, Eq)]
pub enum VelocityUnit {
    MetersPerSecs(i64),
    CentimeterPerSecs(i64),
}

impl DistanceUnit {
    /// The number, without its unit.
    pub open spec fn spec_to_val(self) -> i64 {
        match self {
            DistanceUnit::Mm(val) => val,
            DistanceUnit::Cm(val) => val,
        }
    }

    /// Replaces the number and keeps the unit.
    pub fn write_val(&mut self, new_val: i64)
        ensures
            final(self).spec_to_val() == new_val,
            *old(self) is Mm <==> *final(self) is Mm,
    {
        let replaced = match *self {
            DistanceUnit::Mm(_) => DistanceUnit::Mm(new_val),
            DistanceUnit::Cm(_) => DistanceUnit::Cm(new_val),
        };
        *self = replaced;
    }

    /// The number, without its unit.
    pub fn to_val(&self) -> (val: i64)
        ensures
            val == self.spec_to_val(),
    {
        match self {
            DistanceUnit::Mm(val) => *val,
            DistanceUnit::Cm(val) => *val,
        }
    }
}

impl VelocityUnit {
    /// The number, without its unit.
    pub open spec fn spec_to_val(self) -> i64 {
        match self {
            VelocityUnit::MetersPerSecs(val) => val,
            VelocityUnit::CentimeterPerSecs(val) => val,
        }
    }

    /// The number, without its unit.
    pub fn to_val(&self) -> (val: i64)
        ensures
            val == self.spec_to_val(),
    {
        match self {
            VelocityUnit::MetersPerSecs(val) => *val,
            VelocityUnit::CentimeterPerSecs(val) => *val,
        }
    }
}

} // verus!
