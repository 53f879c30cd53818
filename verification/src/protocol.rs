//! Module addresses and the shared raw signal values of the CAN protocol.

use vstd::prelude::*;

pub mod command;
pub mod error;
pub mod state;

verus! {

/// A PCB on the bus, numbered as the `TargetModule` signal numbers it.
#[derive(Debug, Clone, Copy, PartialEq, Eq, Structural)]
pub enum Module {
    Broadcast,
    Cockpit,
    Hydrogen,
    TelemetryBattery,
    HighPower,
    DriverInterface,
}

/// The raw `TargetModule` number of a module.
pub open spec fn module_number(m: Module) -> u8 {
    match m {
        Module::Broadcast => 0,
        Module::Cockpit => 1,
        Module::Hydrogen => 2,
        Module::TelemetryBattery => 3,
        Module::HighPower => 4,
        Module::DriverInterface => 5,
    }
}

/// The module that a raw `TargetModule` number names, if any.
pub open spec fn module_of_number(raw: u8) -> Option<Module> {
    if raw == 0 {
        Some(Module::Broadcast)
    } else if raw == 1 {
        Some(Module::Cockpit)
    } else if raw == 2 {
        Some(Module::Hydrogen)
    } else if raw == 3 {
        Some(Module::TelemetryBattery)
    } else if raw == 4 {
        Some(Module::HighPower)
    } else if raw == 5 {
        Some(Module::DriverInterface)
    } else {
        None
    }
}

impl Module {
    /// Decodes a raw `TargetModule` value; values above 5 name no module.
    pub fn from_raw(raw: u8) -> (m: Option<Module>)
        ensures
            m == module_of_number(raw),
            m is Some <==> raw <= 5,
    {
        match raw {
            0 => Some(Module::Broadcast),
            1 => Some(Module::Cockpit),
            2 => Some(Module::Hydrogen),
            3 => Some(Module::TelemetryBattery),
            4 => Some(Module::HighPower),
            5 => Some(Module::DriverInterface),
            _ => None,
        }
    }

    /// The raw `TargetModule` value of this module.
    pub fn raw(self) -> (r: u8)
        ensures
            r == module_number(self),
    {
        match self {
            Module::Broadcast => 0,
            Module::Cockpit => 1,
            Module::Hydrogen => 2,
            Module::TelemetryBattery => 3,
            Module::HighPower => 4,
            Module::DriverInterface => 5,
        }
    }
}

/// Encoding a module and decoding the number gives the module back, and every
/// number that names a module is that module's number.
pub proof fn lemma_module_number_round_trip(m: Module, raw: u8)
    ensures
        module_of_number(module_number(m)) == Some(m),
        module_of_number(raw) matches Some(n) ==> module_number(n) == raw,
{
}

} // verus!
