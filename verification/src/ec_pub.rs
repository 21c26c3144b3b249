//! The power monitor's reading as it is published.

use vstd::prelude::*;
use crate::fixed::{clamp_i128, saturate};
use crate::powermon::Ina219Payload;

verus! {

/// Power in milliwatts.
#[derive(Debug, Clone, Copy, PartialEq, Eq)]
pub struct PowerMwatts(pub i64);

/// Load current in milliamperes.
#[derive(Debug, Clone, Copy, PartialEq, Eq)]
pub struct LoadCurrentMamps(pub i64);

/// Bus voltage in millivolts.
#[derive(Debug, Clone, Copy, PartialEq, Eq)]
pub struct BusVoltageMvolts(pub i64);

/// Shunt voltage in millivolts.
#[derive(Debug, Clone, Copy, PartialEq, Eq)]
pub struct ShuntVoltageMvolts(pub i64);

/// The four published values of one cycle.
#[derive(Debug, Clone, Copy, PartialEq, Eq)]
pub struct EcPubOutput {
    pub power: PowerMwatts,
    pub load_current: LoadCurrentMamps,
    pub bus_voltage: BusVoltageMvolts,
    pub shunt_voltage: ShuntVoltageMvolts,
}

/// Publishes the power monitor's reading.
#[derive(Debug, Clone, Copy, PartialEq, Eq)]
pub struct EcPub {}

impl EcPub {
    /// The published values for a reading: the bus voltage is read in
    /// volts and published in millivolts, limited to what an `i64` holds;
    /// the other quantities are published as read.
    pub open spec fn spec_publish(reading: Ina219Payload) -> EcPubOutput {
        EcPubOutput {
            power: PowerMwatts(reading.power),
            load_current: LoadCurrentMamps(reading.load_current),
            bus_voltage: BusVoltageMvolts(saturate(reading.bus_voltage * 1000) as i64),
            shunt_voltage: ShuntVoltageMvolts(reading.shunt_voltage),
        }
    }

    /// A publisher.
    pub fn new() -> (p: Self) {
        EcPub {  }
    }

    /// One cycle: nothing is published without a reading.
    pub fn process(&self, input: Option<Ina219Payload>) -> (out: Option<EcPubOutput>)
        ensures
            out == match input {
                Some(reading) => Some(Self::spec_publish(reading)),
                None => None,
            },
    {
        match input {
            Some(reading) => Some(
                EcPubOutput {
                    power: PowerMwatts(reading.power),
                    load_current: LoadCurrentMamps(reading.load_current),
                    bus_voltage: BusVoltageMvolts(
                        clamp_i128((reading.bus_voltage as i128) * 1000, i64::MIN, i64::MAX),
                    ),
                    shunt_voltage: ShuntVoltageMvolts(reading.shunt_voltage),
                },
            ),
            None => None,
        }
    }
}

} // verus!
