use exo_server::categorize::{categorize, source_of, CanRxEvent};
use exo_server::dbc::{Messages, ProcedurePayload, TelemetryBatterySensor};
use exo_server::protocol::{command, error, state, Module};
use exo_server::send::{can_frame, command_frame, error_frame, procedure_status_frame, state_frame, SendError};
use socketcan::{EmbeddedFrame, Id, StandardId};

#[test]
fn module_numbers_round_trip() {
    let all = [
        Module::Broadcast,
        Module::Cockpit,
        Module::Hydrogen,
        Module::TelemetryBattery,
        Module::HighPower,
        Module::DriverInterface,
    ];
    for (i, m) in all.iter().enumerate() {
        assert_eq!(m.raw(), i as u8);
        assert_eq!(Module::from_raw(i as u8), Some(*m));
    }
    assert_eq!(Module::from_raw(6), None);
    assert_eq!(Module::from_raw(255), None);
}

#[test]
fn shared_signal_values() {
    assert_eq!(command::START, 0);
    assert_eq!(command::SHUTDOWN, 1);
    assert_eq!(command::FORCE_SHUTDOWN, 2);
    assert_eq!(state::IDLE, 0);
    assert_eq!(state::STARTING, 1);
    assert_eq!(state::STARTED, 2);
    assert_eq!(state::SHUTTING_DOWN, 3);
    assert_eq!(error::SYSTEM_FAULT, 0x5000);
    assert_eq!(error::CAN_FAULT, 0x5001);
}

#[test]
fn error_and_warning_frames_become_reports() {
    assert_eq!(
        categorize(Messages::HpPcb04E { error_type: 0x4002 }),
        Some(CanRxEvent::Error { source: Module::HighPower, critical: true, code: 0x4002 })
    );
    assert_eq!(
        categorize(Messages::LpPcb03E { warning_type: 0x3300 }),
        Some(CanRxEvent::Error { source: Module::TelemetryBattery, critical: false, code: 0x3300 })
    );
    assert_eq!(
        categorize(Messages::HpPcb02E { error_type: 7 }),
        Some(CanRxEvent::Error { source: Module::Hydrogen, critical: true, code: 7 })
    );
}

#[test]
fn procedure_frames_go_by_their_multiplexor() {
    assert_eq!(
        categorize(Messages::LpPcb01P(ProcedurePayload::M0 { procedure_status: 4, procedure_type: 9 })),
        Some(CanRxEvent::ProcedureStatus { source: Module::Cockpit, status_raw: 4, kind_raw: 9 })
    );
    assert_eq!(
        categorize(Messages::LpPcb04P(ProcedurePayload::M1 { current_state: 2 })),
        Some(CanRxEvent::ProcedureState { source: Module::HighPower, state_raw: 2 })
    );
    assert_eq!(
        categorize(Messages::LpPcb01P(ProcedurePayload::M2 { target_module: 5, command: 0 })),
        Some(CanRxEvent::ProcedureCommand {
            source: Module::Cockpit,
            target: Module::DriverInterface,
            command_raw: 0
        })
    );
    // A command to a module number that names no module is dropped.
    assert_eq!(categorize(Messages::LpPcb03P(ProcedurePayload::M2 { target_module: 9, command: 0 })), None);
    // So is a multiplexor value without layout.
    assert_eq!(categorize(Messages::LpPcb05P(ProcedurePayload::Undefined)), None);
}

#[test]
fn data_frames_only_carry_their_sender() {
    assert_eq!(categorize(Messages::LpPcb02D), Some(CanRxEvent::Data { source: Module::Hydrogen }));
    assert_eq!(
        categorize(Messages::LpPcb03D(TelemetryBatterySensor::M0 { batt_so_c: 128 })),
        Some(CanRxEvent::Data { source: Module::TelemetryBattery })
    );
    assert_eq!(categorize(Messages::LpPcb04D), Some(CanRxEvent::Data { source: Module::HighPower }));
}

#[test]
fn source_of_every_event_kind() {
    let events = [
        CanRxEvent::Error { source: Module::Cockpit, critical: true, code: 1 },
        CanRxEvent::ProcedureStatus { source: Module::Hydrogen, status_raw: 0, kind_raw: 0 },
        CanRxEvent::ProcedureState { source: Module::TelemetryBattery, state_raw: 0 },
        CanRxEvent::ProcedureCommand { source: Module::HighPower, target: Module::Broadcast, command_raw: 0 },
        CanRxEvent::Data { source: Module::DriverInterface },
    ];
    let expected = [
        Module::Cockpit,
        Module::Hydrogen,
        Module::TelemetryBattery,
        Module::HighPower,
        Module::DriverInterface,
    ];
    for (e, m) in events.iter().zip(expected.iter()) {
        assert_eq!(source_of(e), *m);
    }
}

#[test]
fn sent_frames_read_back_as_sent() {
    assert_eq!(
        categorize(state_frame(state::STARTING)),
        Some(CanRxEvent::ProcedureState { source: Module::DriverInterface, state_raw: state::STARTING })
    );
    let frame = command_frame(Module::HighPower, command::SHUTDOWN).unwrap();
    assert_eq!(frame, Messages::LpPcb05P(ProcedurePayload::M2 { target_module: 4, command: 1 }));
    assert_eq!(
        categorize(frame),
        Some(CanRxEvent::ProcedureCommand {
            source: Module::DriverInterface,
            target: Module::HighPower,
            command_raw: command::SHUTDOWN
        })
    );
    assert_eq!(
        categorize(procedure_status_frame(1, 2)),
        Some(CanRxEvent::ProcedureStatus { source: Module::DriverInterface, status_raw: 1, kind_raw: 2 })
    );
    assert_eq!(error_frame(error::CAN_FAULT), Messages::HpPcb05E { error_type: 0x5001 });
    assert_eq!(
        categorize(error_frame(error::CAN_FAULT)),
        Some(CanRxEvent::Error { source: Module::DriverInterface, critical: true, code: 0x5001 })
    );
}

#[test]
fn hydrogen_is_never_commanded() {
    assert_eq!(command_frame(Module::Hydrogen, command::START), Err(SendError::RetiredModule));
    assert_eq!(SendError::RetiredModule.message(), "Hydrogen PCB is no longer used");
}

#[test]
fn can_frame_checks_identifier_and_length() {
    let frame = can_frame(0x123, &[1, 2, 3]).unwrap();
    assert_eq!(frame.id(), Id::Standard(StandardId::new(0x123).unwrap()));
    assert_eq!(frame.data(), &[1, 2, 3]);
    let full = can_frame(0x7FF, &[0; 8]).unwrap();
    assert_eq!(full.data().len(), 8);
    assert_eq!(can_frame(0x800, &[1]).err(), Some(SendError::InvalidId));
    assert_eq!(can_frame(0x123, &[0; 9]).err(), Some(SendError::FrameTooLong));
    // Only the low 16 bits of the identifier are kept.
    let wrapped = can_frame(0x1_0042, &[]).unwrap();
    assert_eq!(wrapped.id(), Id::Standard(StandardId::new(0x42).unwrap()));
    assert_eq!(SendError::InvalidId.message(), "invalid CAN id");
    assert_eq!(SendError::FrameTooLong.message(), "failed to build CAN frame");
}
