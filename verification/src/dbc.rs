//! The decoded content of the CAN messages of the boat's bus, one variant per
//! message of the bus description, holding the raw signal values that the
//! server reads or writes.
//!
//! Naming: `HpPcbNNE` is PCB NN's high-priority error frame (`ErrorType`),
//! `LpPcbNNE` its low-priority warning frame (`WarningType`), `LpPcbNNP` its
//! multiplexed procedure frame and `LpPcbNND` its multiplexed data frame.

use vstd::prelude::*;

verus! {

/// The payload of a procedure frame (`LP_PCBnn_P`), selected by its
/// `MessageType` multiplexor.
#[derive(Debug, Clone, Copy, PartialEq, Eq, Structural)]
pub enum ProcedurePayload {
    /// `MessageType` M0: the state of a running procedure.
    M0 { procedure_status: u8, procedure_type: u8 },
    /// `MessageType` M1: the sender's current state.
    M1 { current_state: u8 },
    /// `MessageType` M2: a command addressed to a module.
    M2 { target_module: u8, command: u8 },
    /// A `MessageType` value for which the bus description defines no layout.
    Undefined,
}

/// The payload of the TelemetryBattery data frame (`LP_PCB03_D`), selected by
/// its `Sensor` multiplexor.
#[derive(Debug, Clone, Copy, PartialEq, Eq, Structural)]
pub enum TelemetryBatterySensor {
    /// `Sensor` M0: the battery's state of charge, raw (0..=255 spans 0..100 %).
    M0 { batt_so_c: u8 },
    /// Any other `Sensor` value: signals the server does not read.
    Other,
}

/// One decoded CAN message of the bus.
#[derive(Debug, Clone, Copy, PartialEq, Eq, Structural)]
pub enum Messages {
    HpPcb01E { error_type: u16 },
    LpPcb01E { warning_type: u16 },
    LpPcb01P(ProcedurePayload),
    HpPcb02E { error_type: u16 },
    LpPcb02E { warning_type: u16 },
    LpPcb02P(ProcedurePayload),
    LpPcb02D,
    HpPcb03E { error_type: u16 },
    LpPcb03E { warning_type: u16 },
    LpPcb03P(ProcedurePayload),
    LpPcb03D(TelemetryBatterySensor),
    HpPcb04E { error_type: u16 },
    LpPcb04E { warning_type: u16 },
    LpPcb04P(ProcedurePayload),
    LpPcb04D,
    HpPcb05E { error_type: u16 },
    LpPcb05E { warning_type: u16 },
    LpPcb05P(ProcedurePayload),
}

} // verus!
