//! Every incoming CAN message, from any PCB, collapses into one `CanRxEvent`.

use vstd::prelude::*;

use crate::dbc::{Messages, ProcedurePayload};
use crate::protocol::{module_of_number, Module};

verus! {

/// What a received message means to the server.
#[derive(Debug, Clone, Copy, PartialEq, Eq, Structural)]
pub enum CanRxEvent {
    /// An error (`critical`) or warning report with its code.
    Error { source: Module, critical: bool, code: u16 },
    ProcedureStatus { source: Module, status_raw: u8, kind_raw: u8 },
    ProcedureState { source: Module, state_raw: u8 },
    ProcedureCommand { source: Module, target: Module, command_raw: u8 },
    /// A sensor data frame; only its sender matters here.
    Data { source: Module },
}

/// The PCB that transmits a message: the `NN` of its name.
pub open spec fn message_sender(msg: Messages) -> Module {
    match msg {
        Messages::HpPcb01E { .. } | Messages::LpPcb01E { .. } | Messages::LpPcb01P(_) => Module::Cockpit,
        Messages::HpPcb02E { .. } | Messages::LpPcb02E { .. } | Messages::LpPcb02P(_)
        | Messages::LpPcb02D => Module::Hydrogen,
        Messages::HpPcb03E { .. } | Messages::LpPcb03E { .. } | Messages::LpPcb03P(_)
        | Messages::LpPcb03D(_) => Module::TelemetryBattery,
        Messages::HpPcb04E { .. } | Messages::LpPcb04E { .. } | Messages::LpPcb04P(_)
        | Messages::LpPcb04D => Module::HighPower,
        Messages::HpPcb05E { .. } | Messages::LpPcb05E { .. } | Messages::LpPcb05P(_) => Module::DriverInterface,
    }
}

/// The event of a procedure frame sent by `source`: none for a multiplexor value
/// without layout, or for a command whose target number names no module.
pub open spec fn procedure_event_spec(source: Module, p: ProcedurePayload) -> Option<CanRxEvent> {
    match p {
        ProcedurePayload::M0 { procedure_status, procedure_type } => Some(
            CanRxEvent::ProcedureStatus { source, status_raw: procedure_status, kind_raw: procedure_type },
        ),
        ProcedurePayload::M1 { current_state } => Some(
            CanRxEvent::ProcedureState { source, state_raw: current_state },
        ),
        ProcedurePayload::M2 { target_module, command } => match module_of_number(target_module) {
            Some(target) => Some(CanRxEvent::ProcedureCommand { source, target, command_raw: command }),
            None => None,
        },
        ProcedurePayload::Undefined => None,
    }
}

/// The event a message collapses into: error frames are critical reports,
/// warning frames non-critical ones, procedure frames go by their multiplexor,
/// data frames only carry their sender.
pub open spec fn categorize_spec(msg: Messages) -> Option<CanRxEvent> {
    let source = message_sender(msg);
    match msg {
        Messages::HpPcb01E { error_type } | Messages::HpPcb02E { error_type }
        | Messages::HpPcb03E { error_type } | Messages::HpPcb04E { error_type }
        | Messages::HpPcb05E { error_type } => Some(
            CanRxEvent::Error { source, critical: true, code: error_type },
        ),
        Messages::LpPcb01E { warning_type } | Messages::LpPcb02E { warning_type }
        | Messages::LpPcb03E { warning_type } | Messages::LpPcb04E { warning_type }
        | Messages::LpPcb05E { warning_type } => Some(
            CanRxEvent::Error { source, critical: false, code: warning_type },
        ),
        Messages::LpPcb01P(p) | Messages::LpPcb02P(p) | Messages::LpPcb03P(p)
        | Messages::LpPcb04P(p) | Messages::LpPcb05P(p) => procedure_event_spec(source, p),
        Messages::LpPcb02D | Messages::LpPcb03D(_) | Messages::LpPcb04D => Some(
            CanRxEvent::Data { source },
        ),
    }
}

/// The module an event comes from.
pub open spec fn event_source(event: CanRxEvent) -> Module {
    match event {
        CanRxEvent::Error { source, .. } => source,
        CanRxEvent::ProcedureStatus { source, .. } => source,
        CanRxEvent::ProcedureState { source, .. } => source,
        CanRxEvent::ProcedureCommand { source, .. } => source,
        CanRxEvent::Data { source } => source,
    }
}

/// The module an event comes from.
pub fn source_of(event: &CanRxEvent) -> (m: Module)
    ensures
        m == event_source(*event),
{
    match *event {
        CanRxEvent::Error { source, .. }
        | CanRxEvent::ProcedureStatus { source, .. }
        | CanRxEvent::ProcedureState { source, .. }
        | CanRxEvent::ProcedureCommand { source, .. }
        | CanRxEvent::Data { source } => source,
    }
}

fn procedure_event(source: Module, p: ProcedurePayload) -> (e: Option<CanRxEvent>)
    ensures
        e == procedure_event_spec(source, p),
{
    match p {
        ProcedurePayload::M0 { procedure_status, procedure_type } => Some(
            CanRxEvent::ProcedureStatus { source, status_raw: procedure_status, kind_raw: procedure_type },
        ),
        ProcedurePayload::M1 { current_state } => Some(
            CanRxEvent::ProcedureState { source, state_raw: current_state },
        ),
        ProcedurePayload::M2 { target_module, command } => {
            let target = Module::from_raw(target_module)?;
            Some(CanRxEvent::ProcedureCommand { source, target, command_raw: command })
        },
        ProcedurePayload::Undefined => None,
    }
}

/// Normalizes any message of the bus into a `CanRxEvent`; `None` for a
/// procedure frame with an undefined `MessageType` or a command to an unknown
/// module number.
pub fn categorize(msg: Messages) -> (e: Option<CanRxEvent>)
    ensures
        e == categorize_spec(msg),
{
    match msg {
        Messages::HpPcb01E { error_type } => Some(
            CanRxEvent::Error { source: Module::Cockpit, critical: true, code: error_type },
        ),
        Messages::LpPcb01E { warning_type } => Some(
            CanRxEvent::Error { source: Module::Cockpit, critical: false, code: warning_type },
        ),
        Messages::LpPcb01P(p) => procedure_event(Module::Cockpit, p),
        Messages::HpPcb02E { error_type } => Some(
            CanRxEvent::Error { source: Module::Hydrogen, critical: true, code: error_type },
        ),
        Messages::LpPcb02E { warning_type } => Some(
            CanRxEvent::Error { source: Module::Hydrogen, critical: false, code: warning_type },
        ),
        Messages::LpPcb02P(p) => procedure_event(Module::Hydrogen, p),
        Messages::LpPcb02D => Some(CanRxEvent::Data { source: Module::Hydrogen }),
        Messages::HpPcb03E { error_type } => Some(
            CanRxEvent::Error { source: Module::TelemetryBattery, critical: true, code: error_type },
        ),
        Messages::LpPcb03E { warning_type } => Some(
            CanRxEvent::Error { source: Module::TelemetryBattery, critical: false, code: warning_type },
        ),
        Messages::LpPcb03P(p) => procedure_event(Module::TelemetryBattery, p),
        Messages::LpPcb03D(_) => Some(CanRxEvent::Data { source: Module::TelemetryBattery }),
        Messages::HpPcb04E { error_type } => Some(
            CanRxEvent::Error { source: Module::HighPower, critical: true, code: error_type },
        ),
        Messages::LpPcb04E { warning_type } => Some(
            CanRxEvent::Error { source: Module::HighPower, critical: false, code: warning_type },
        ),
        Messages::LpPcb04P(p) => procedure_event(Module::HighPower, p),
        Messages::LpPcb04D => Some(CanRxEvent::Data { source: Module::HighPower }),
        Messages::HpPcb05E { error_type } => Some(
            CanRxEvent::Error { source: Module::DriverInterface, critical: true, code: error_type },
        ),
        Messages::LpPcb05E { warning_type } => Some(
            CanRxEvent::Error { source: Module::DriverInterface, critical: false, code: warning_type },
        ),
        Messages::LpPcb05P(p) => procedure_event(Module::DriverInterface, p),
    }
}

/// Every event that a message collapses into comes from the message's sender,
/// and only procedure frames are ever dropped.
pub proof fn lemma_categorize_keeps_sender(msg: Messages)
    ensures
        categorize_spec(msg) matches Some(e) ==> event_source(e) == message_sender(msg),
        categorize_spec(msg) is None ==> (msg is LpPcb01P || msg is LpPcb02P || msg is LpPcb03P
            || msg is LpPcb04P || msg is LpPcb05P),
{
}

/// Every high-priority error frame is a critical report and every
/// low-priority warning frame a non-critical one, each from the PCB whose
/// number the frame carries and with the frame's code.
pub proof fn lemma_error_frames_are_reports(code: u16)
    ensures
        categorize_spec(Messages::HpPcb01E { error_type: code })
            == Some(CanRxEvent::Error { source: Module::Cockpit, critical: true, code }),
        categorize_spec(Messages::HpPcb02E { error_type: code })
            == Some(CanRxEvent::Error { source: Module::Hydrogen, critical: true, code }),
        categorize_spec(Messages::HpPcb03E { error_type: code })
            == Some(CanRxEvent::Error { source: Module::TelemetryBattery, critical: true, code }),
        categorize_spec(Messages::HpPcb04E { error_type: code })
            == Some(CanRxEvent::Error { source: Module::HighPower, critical: true, code }),
        categorize_spec(Messages::HpPcb05E { error_type: code })
            == Some(CanRxEvent::Error { source: Module::DriverInterface, critical: true, code }),
        categorize_spec(Messages::LpPcb01E { warning_type: code })
            == Some(CanRxEvent::Error { source: Module::Cockpit, critical: false, code }),
        categorize_spec(Messages::LpPcb02E { warning_type: code })
            == Some(CanRxEvent::Error { source: Module::Hydrogen, critical: false, code }),
        categorize_spec(Messages::LpPcb03E { warning_type: code })
            == Some(CanRxEvent::Error { source: Module::TelemetryBattery, critical: false, code }),
        categorize_spec(Messages::LpPcb04E { warning_type: code })
            == Some(CanRxEvent::Error { source: Module::HighPower, critical: false, code }),
        categorize_spec(Messages::LpPcb05E { warning_type: code })
            == Some(CanRxEvent::Error { source: Module::DriverInterface, critical: false, code }),
{
}

} // verus!
