use exo_server::categorize::CanRxEvent;
use exo_server::dashboard_state::default_pcb_status;
use exo_server::dbc::{Messages, ProcedurePayload, TelemetryBatterySensor};
use exo_server::protocol::{command, error, state, Module};
use exo_server::receiver::{missing_confirmation_reports, Orchestrator, Reaction};

#[test]
fn hydrogen_messages_are_ignored() {
    let mut o = Orchestrator::new();
    let mut panel = default_pcb_status();
    let r = o.receive(
        &mut panel,
        Messages::LpPcb02P(ProcedurePayload::M2 { target_module: 5, command: command::START }),
    );
    assert!(r.ignored);
    assert_eq!(r.reaction, Reaction::Nothing);
    assert_eq!(o.boat_state(), state::IDLE);
    let r = o.receive(&mut panel, Messages::HpPcb02E { error_type: 0x2000 });
    assert!(r.ignored);
    assert!(panel.iter().all(|p| p.alert.is_none()));
}

#[test]
fn errors_reach_the_panel_and_commands_the_orchestrator() {
    let mut o = Orchestrator::new();
    let mut panel = default_pcb_status();
    let r = o.receive(&mut panel, Messages::LpPcb01E { warning_type: 0x1300 });
    assert!(!r.ignored);
    assert_eq!(r.event, Some(CanRxEvent::Error { source: Module::Cockpit, critical: false, code: 0x1300 }));
    let a = panel[0].alert.as_ref().unwrap();
    assert_eq!((a.title.as_str(), a.severity.as_str()), ("Erreur inconnue", "warning"));

    let r = o.receive(
        &mut panel,
        Messages::LpPcb01P(ProcedurePayload::M2 { target_module: 0, command: command::START }),
    );
    match r.reaction {
        Reaction::Proposed(t) => {
            assert_eq!(t.intermediate, state::STARTING);
            assert_eq!(t.source, Module::Cockpit);
        }
        other => panic!("unexpected {:?}", other),
    }
}

#[test]
fn battery_gauge_and_dropped_frames() {
    let mut o = Orchestrator::new();
    let mut panel = default_pcb_status();
    let r = o.receive(&mut panel, Messages::LpPcb03D(TelemetryBatterySensor::M0 { batt_so_c: 255 }));
    assert_eq!(r.battery_charge_raw, Some(255));
    assert_eq!(r.event, Some(CanRxEvent::Data { source: Module::TelemetryBattery }));
    let r = o.receive(&mut panel, Messages::LpPcb04P(ProcedurePayload::Undefined));
    assert_eq!(r.event, None);
    assert!(!r.ignored);
    assert_eq!(r.reaction, Reaction::Nothing);
}

#[test]
fn every_missing_pcb_is_reported_as_a_can_fault() {
    let mut o = Orchestrator::new();
    let mut panel = default_pcb_status();
    let r = o.receive(
        &mut panel,
        Messages::LpPcb04P(ProcedurePayload::M2 { target_module: 5, command: command::START }),
    );
    let t = match r.reaction {
        Reaction::Proposed(t) => t,
        other => panic!("unexpected {:?}", other),
    };
    assert_eq!(o.commit_transition(t, 0), vec![Module::Cockpit, Module::TelemetryBattery]);
    o.receive(&mut panel, Messages::LpPcb03P(ProcedurePayload::M1 { current_state: state::STARTED }));
    let expired = o.check_deadline(3000).unwrap();
    let reports = missing_confirmation_reports(&expired);
    let fault = Messages::HpPcb05E { error_type: error::CAN_FAULT };
    assert_eq!(reports, vec![(Module::Cockpit, fault), (Module::HighPower, fault)]);
}
