//! What the DriverInterface PCB transmits: its procedure frame (`LP_PCB05_P`)
//! and its own error reports (`HP_PCB05_E`), and the checks a raw payload
//! passes before it becomes a CAN data frame. There is intentionally no data
//! frame: this PCB never originates sensor telemetry.

use vstd::prelude::*;

use socketcan::{CanFrame, EmbeddedFrame, StandardId};

use crate::categorize::{categorize_spec, CanRxEvent};
use crate::dbc::{Messages, ProcedurePayload};
use crate::protocol::{module_number, Module};

verus! {

#[verifier::external_type_specification]
#[verifier::external_body]
pub struct ExStandardId(StandardId);

#[verifier::external_type_specification]
#[verifier::external_body]
pub struct ExCanFrame(CanFrame);

/// The 11-bit identifier that `StandardId::new` makes of an in-range raw value.
pub uninterp spec fn standard_id(raw: u16) -> StandardId;

/// The data frame that `CanFrame::new` makes of an identifier and at most 8 bytes.
pub uninterp spec fn data_frame(id: StandardId, data: Seq<u8>) -> CanFrame;

/// `socketcan::StandardId::new` (embedded-can's): `Some` exactly when `raw`
/// fits in 11 bits (`raw <= 0x7FF`), holding that value.
#[verifier::external_body]
fn new_standard_id(raw: u16) -> (r: Option<StandardId>)
    ensures
        raw <= 0x7FF ==> r == Some(standard_id(raw)),
        raw > 0x7FF ==> r is None,
{
    StandardId::new(raw)
}

/// `<socketcan::CanFrame as EmbeddedFrame>::new`: a data frame with identifier
/// `id` and payload `data` when the payload has at most 8 bytes
/// (`CAN_MAX_DLEN`), `None` otherwise.
#[verifier::external_body]
fn new_data_frame(id: StandardId, data: &[u8]) -> (r: Option<CanFrame>)
    ensures
        data@.len() <= 8 ==> r == Some(data_frame(id, data@)),
        data@.len() > 8 ==> r is None,
{
    <CanFrame as EmbeddedFrame>::new(id, data)
}

/// Why a frame could not be sent.
#[derive(Debug, Clone, Copy, PartialEq, Eq, Structural)]
pub enum SendError {
    /// The procedure frame's signal values do not fit its layout.
    InvalidProcedureParameters,
    /// The error frame's signal values do not fit its layout.
    InvalidErrorParameters,
    /// The message identifier is not an 11-bit CAN identifier.
    InvalidId,
    /// The payload is longer than a CAN frame holds.
    FrameTooLong,
    /// The target PCB is no longer part of the boat.
    RetiredModule,
}

impl SendError {
    /// The message of the I/O error this failure is reported as.
    pub fn message(&self) -> (s: &'static str)
        ensures
            s@ == send_error_text(*self),
    {
        match self {
            SendError::InvalidProcedureParameters => "invalid LP_PCB05_P parameters",
            SendError::InvalidErrorParameters => "invalid HP_PCB05_E parameters",
            SendError::InvalidId => "invalid CAN id",
            SendError::FrameTooLong => "failed to build CAN frame",
            SendError::RetiredModule => "Hydrogen PCB is no longer used",
        }
    }
}

/// The text of each send failure.
pub open spec fn send_error_text(e: SendError) -> Seq<char> {
    match e {
        SendError::InvalidProcedureParameters => "invalid LP_PCB05_P parameters"@,
        SendError::InvalidErrorParameters => "invalid HP_PCB05_E parameters"@,
        SendError::InvalidId => "invalid CAN id"@,
        SendError::FrameTooLong => "failed to build CAN frame"@,
        SendError::RetiredModule => "Hydrogen PCB is no longer used"@,
    }
}

/// The CAN data frame for an encoded message: the identifier is taken as a
/// 16-bit value (higher bits dropped) and must fit in 11 bits; the payload
/// must hold at most 8 bytes.
pub fn can_frame(message_id: u32, payload: &[u8]) -> (r: Result<CanFrame, SendError>)
    ensures
        (message_id as u16) > 0x7FF ==> r == Err::<CanFrame, SendError>(SendError::InvalidId),
        (message_id as u16) <= 0x7FF && payload@.len() > 8 ==> r == Err::<CanFrame, SendError>(
            SendError::FrameTooLong,
        ),
        (message_id as u16) <= 0x7FF && payload@.len() <= 8 ==> r == Ok::<CanFrame, SendError>(
            data_frame(standard_id(message_id as u16), payload@),
        ),
{
    let id = match new_standard_id(message_id as u16) {
        Some(id) => id,
        None => return Err(SendError::InvalidId),
    };
    match new_data_frame(id, payload) {
        Some(frame) => Ok(frame),
        None => Err(SendError::FrameTooLong),
    }
}

/// The procedure frame announcing our current state (`MessageType` M1).
pub fn state_frame(state_raw: u8) -> (m: Messages)
    ensures
        m == Messages::LpPcb05P(ProcedurePayload::M1 { current_state: state_raw }),
{
    Messages::LpPcb05P(ProcedurePayload::M1 { current_state: state_raw })
}

/// The procedure frame commanding `target` (`MessageType` M2); the Hydrogen PCB
/// is no longer used and is never commanded.
pub fn command_frame(target: Module, command_raw: u8) -> (r: Result<Messages, SendError>)
    ensures
        target == Module::Hydrogen ==> r == Err::<Messages, SendError>(SendError::RetiredModule),
        target != Module::Hydrogen ==> r == Ok::<Messages, SendError>(
            Messages::LpPcb05P(
                ProcedurePayload::M2 { target_module: module_number(target), command: command_raw },
            ),
        ),
{
    if target == Module::Hydrogen {
        return Err(SendError::RetiredModule);
    }
    Ok(Messages::LpPcb05P(ProcedurePayload::M2 { target_module: target.raw(), command: command_raw }))
}

/// The procedure frame reporting a procedure's status (`MessageType` M0).
pub fn procedure_status_frame(status_raw: u8, kind_raw: u8) -> (m: Messages)
    ensures
        m == Messages::LpPcb05P(
            ProcedurePayload::M0 { procedure_status: status_raw, procedure_type: kind_raw },
        ),
{
    Messages::LpPcb05P(ProcedurePayload::M0 { procedure_status: status_raw, procedure_type: kind_raw })
}

/// Our own error report. Error frames have no destination: the report is
/// self-originated, not addressed at whichever PCB caused it.
pub fn error_frame(error_type_raw: u16) -> (m: Messages)
    ensures
        m == (Messages::HpPcb05E { error_type: error_type_raw }),
{
    Messages::HpPcb05E { error_type: error_type_raw }
}

/// Every frame we send reads back, on the receiving side, as exactly what was
/// sent, from the DriverInterface PCB.
pub proof fn lemma_sent_frames_read_back(state_raw: u8, target: Module, command_raw: u8, status_raw: u8, kind_raw: u8, code: u16)
    ensures
        categorize_spec(Messages::LpPcb05P(ProcedurePayload::M1 { current_state: state_raw }))
            == Some(CanRxEvent::ProcedureState { source: Module::DriverInterface, state_raw }),
        categorize_spec(Messages::LpPcb05P(
            ProcedurePayload::M2 { target_module: module_number(target), command: command_raw },
        )) == Some(CanRxEvent::ProcedureCommand { source: Module::DriverInterface, target, command_raw }),
        categorize_spec(Messages::LpPcb05P(
            ProcedurePayload::M0 { procedure_status: status_raw, procedure_type: kind_raw },
        )) == Some(CanRxEvent::ProcedureStatus { source: Module::DriverInterface, status_raw, kind_raw }),
        categorize_spec(Messages::HpPcb05E { error_type: code })
            == Some(CanRxEvent::Error { source: Module::DriverInterface, critical: true, code }),
{
}

} // verus!
