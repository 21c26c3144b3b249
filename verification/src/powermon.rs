//! The reading of the power monitor.

use vstd::prelude::*;

verus! {

/// One reading of the power monitor at bus address `target_addr`; the
/// four quantities are fixed-point numbers.
#[derive(Debug, Clone, Copy, PartialEq, Eq)]
pub struct Ina219Payload {
    pub power: i64,
    pub load_current: i64,
    pub shunt_voltage: i64,
    pub bus_voltage: i64,
    pub target_addr: u8,
}

impl Ina219Payload {
    /// The payload for the outcome of the four reads: a quantity that
    /// could not be read counts as zero.
    pub fn from_readings(
        power: Option<i64>,
        load_current: Option<i64>,
        shunt_voltage: Option<i64>,
        bus_voltage: Option<i64>,
        target_addr: u8,
    ) -> (p: Ina219Payload)
        ensures
            p.power == power.unwrap_or(0),
            p.load_current == load_current.unwrap_or(0),
            p.shunt_voltage == shunt_voltage.unwrap_or(0),
            p.bus_voltage == bus_voltage.unwrap_or(0),
            p.target_addr == target_addr,
    {
        Ina219Payload {
            power: match power {
                Some(v) => v,
                None => 0,
            },
            load_current: match load_current {
                Some(v) => v,
                None => 0,
            },
            shunt_voltage: match shunt_voltage {
                Some(v) => v,
                None => 0,
            },
            bus_voltage: match bus_voltage {
                Some(v) => v,
                None => 0,
            },
            target_addr,
        }
    }
}

} // verus!
