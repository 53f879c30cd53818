use exo_server::categorize::CanRxEvent;
use exo_server::log_text::{missing_confirmation_text, module_name, radix_text, rx_event_log};
use exo_server::protocol::Module;

#[test]
fn radix_text_matches_std_formatting() {
    for x in [0u64, 1, 9, 10, 15, 16, 255, 0x5001, 3000, u64::MAX] {
        assert_eq!(radix_text(x, 16), format!("{:X}", x));
        assert_eq!(radix_text(x, 10), format!("{}", x));
    }
    assert_eq!(radix_text(5, 2), "101");
}

#[test]
fn module_names_match_debug() {
    for m in [
        Module::Broadcast,
        Module::Cockpit,
        Module::Hydrogen,
        Module::TelemetryBattery,
        Module::HighPower,
        Module::DriverInterface,
    ] {
        assert_eq!(module_name(m), format!("{:?}", m));
    }
}

#[test]
fn event_log_lines() {
    let (level, text) = rx_event_log(&CanRxEvent::Error { source: Module::HighPower, critical: true, code: 0x4002 });
    assert_eq!((level, text.as_str()), ("error", "CAN ERROR from HighPower: code=0x4002"));
    let (level, text) = rx_event_log(&CanRxEvent::Error { source: Module::Cockpit, critical: false, code: 0x1300 });
    assert_eq!((level, text.as_str()), ("info", "CAN warning from Cockpit: code=0x1300"));
    let (level, text) =
        rx_event_log(&CanRxEvent::ProcedureStatus { source: Module::TelemetryBattery, status_raw: 10, kind_raw: 0 });
    assert_eq!((level, text.as_str()), ("info", "CAN procedure status from TelemetryBattery: status=0xA kind=0x0"));
    let (_, text) = rx_event_log(&CanRxEvent::ProcedureState { source: Module::Cockpit, state_raw: 2 });
    assert_eq!(text, "CAN state from Cockpit: state=0x2");
    let (_, text) = rx_event_log(&CanRxEvent::ProcedureCommand {
        source: Module::Cockpit,
        target: Module::Broadcast,
        command_raw: 1,
    });
    assert_eq!(text, "CAN command from Cockpit to Broadcast: command=0x1");
    let (level, text) = rx_event_log(&CanRxEvent::Data { source: Module::HighPower });
    assert_eq!((level, text.as_str()), ("info", "CAN data frame from HighPower"));
}

#[test]
fn missing_confirmation_line() {
    assert_eq!(
        missing_confirmation_text(Module::TelemetryBattery, 2),
        "TelemetryBattery did not confirm state change to 0x2 within 3000ms"
    );
}
