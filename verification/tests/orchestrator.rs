use exo_server::categorize::CanRxEvent;
use exo_server::protocol::{command, state, Module};
use exo_server::receiver::{
    confirmers, plan_transition, without_module, Orchestrator, Reaction, Transition, CONFIRMATION_TIMEOUT_MS,
    POLL_TICK_MS,
};

fn command_event(source: Module, target: Module, command_raw: u8) -> CanRxEvent {
    CanRxEvent::ProcedureCommand { source, target, command_raw }
}

fn state_event(source: Module, state_raw: u8) -> CanRxEvent {
    CanRxEvent::ProcedureState { source, state_raw }
}

fn proposed(r: Reaction) -> Transition {
    match r {
        Reaction::Proposed(t) => t,
        other => panic!("expected a proposal, got {:?}", other),
    }
}

#[test]
fn timing_constants() {
    assert_eq!(CONFIRMATION_TIMEOUT_MS, 3000);
    assert_eq!(POLL_TICK_MS, 250);
    assert_eq!(confirmers(), vec![Module::Cockpit, Module::TelemetryBattery, Module::HighPower]);
}

#[test]
fn transitions_apply_only_from_their_state() {
    assert_eq!(plan_transition(state::IDLE, command::START), Some((state::STARTING, state::STARTED)));
    assert_eq!(plan_transition(state::STARTED, command::SHUTDOWN), Some((state::SHUTTING_DOWN, state::IDLE)));
    assert_eq!(plan_transition(state::STARTED, command::START), None);
    assert_eq!(plan_transition(state::IDLE, command::SHUTDOWN), None);
    assert_eq!(plan_transition(state::STARTING, command::START), None);
    assert_eq!(plan_transition(state::IDLE, command::FORCE_SHUTDOWN), None);
}

#[test]
fn without_module_keeps_order() {
    let v = vec![Module::Cockpit, Module::HighPower, Module::Cockpit, Module::TelemetryBattery];
    assert_eq!(without_module(&v, Module::Cockpit), vec![Module::HighPower, Module::TelemetryBattery]);
    assert_eq!(without_module(&v, Module::Hydrogen), v);
}

#[test]
fn start_handshake_completes_after_every_confirmation() {
    let mut o = Orchestrator::new();
    assert_eq!(o.boat_state(), state::IDLE);
    assert!(!o.is_pending());

    let t = proposed(o.on_event(&command_event(Module::Cockpit, Module::DriverInterface, command::START)));
    assert_eq!(
        t,
        Transition {
            source: Module::Cockpit,
            command_raw: command::START,
            from_state: state::IDLE,
            intermediate: state::STARTING,
            final_state: state::STARTED
        }
    );
    // Proposing does not change the state.
    assert_eq!(o.boat_state(), state::IDLE);

    let relay = o.commit_transition(t, 1000);
    assert_eq!(relay, vec![Module::TelemetryBattery, Module::HighPower]);
    assert_eq!(o.boat_state(), state::STARTING);
    assert!(o.is_pending());

    // A report of another state, or from a PCB already heard, changes nothing.
    assert_eq!(o.on_event(&state_event(Module::Cockpit, state::IDLE)), Reaction::Nothing);
    assert_eq!(o.on_event(&state_event(Module::Cockpit, state::STARTED)), Reaction::Nothing);
    assert_eq!(o.on_event(&state_event(Module::Cockpit, state::STARTED)), Reaction::Nothing);
    assert_eq!(o.on_event(&state_event(Module::HighPower, state::STARTED)), Reaction::Nothing);
    assert_eq!(o.boat_state(), state::STARTING);
    assert_eq!(
        o.on_event(&state_event(Module::TelemetryBattery, state::STARTED)),
        Reaction::Reached { state: state::STARTED }
    );
    assert_eq!(o.boat_state(), state::STARTED);
    assert!(!o.is_pending());
}

#[test]
fn duplicate_command_cannot_restart_a_transition() {
    let mut o = Orchestrator::new();
    let t = proposed(o.on_event(&command_event(Module::HighPower, Module::Broadcast, command::START)));
    assert_eq!(o.commit_transition(t, 0), vec![Module::Cockpit, Module::TelemetryBattery]);
    assert_eq!(
        o.on_event(&command_event(Module::Cockpit, Module::DriverInterface, command::START)),
        Reaction::Nothing
    );
    assert_eq!(
        o.on_event(&command_event(Module::Cockpit, Module::DriverInterface, command::SHUTDOWN)),
        Reaction::Nothing
    );
    assert_eq!(o.boat_state(), state::STARTING);
}

#[test]
fn commands_to_other_modules_are_ignored() {
    let mut o = Orchestrator::new();
    assert_eq!(o.on_event(&command_event(Module::Cockpit, Module::HighPower, command::START)), Reaction::Nothing);
    assert_eq!(o.on_event(&command_event(Module::Cockpit, Module::Cockpit, command::START)), Reaction::Nothing);
    assert_eq!(
        o.on_event(&command_event(Module::Cockpit, Module::DriverInterface, command::FORCE_SHUTDOWN)),
        Reaction::Nothing
    );
    assert_eq!(
        o.on_event(&CanRxEvent::Error { source: Module::Cockpit, critical: true, code: 0x1000 }),
        Reaction::Nothing
    );
    assert_eq!(o.boat_state(), state::IDLE);
}

#[test]
fn full_start_then_shutdown_cycle() {
    let mut o = Orchestrator::new();
    let t = proposed(o.on_event(&command_event(Module::Cockpit, Module::DriverInterface, command::START)));
    o.commit_transition(t, 10);
    for m in [Module::Cockpit, Module::TelemetryBattery] {
        assert_eq!(o.on_event(&state_event(m, state::STARTED)), Reaction::Nothing);
    }
    assert_eq!(o.on_event(&state_event(Module::HighPower, state::STARTED)), Reaction::Reached { state: state::STARTED });

    let t = proposed(o.on_event(&command_event(Module::TelemetryBattery, Module::Broadcast, command::SHUTDOWN)));
    assert_eq!(t.intermediate, state::SHUTTING_DOWN);
    assert_eq!(t.final_state, state::IDLE);
    assert_eq!(o.commit_transition(t, 20), vec![Module::Cockpit, Module::HighPower]);
    assert_eq!(o.boat_state(), state::SHUTTING_DOWN);
    for m in [Module::HighPower, Module::Cockpit] {
        assert_eq!(o.on_event(&state_event(m, state::IDLE)), Reaction::Nothing);
    }
    assert_eq!(o.on_event(&state_event(Module::TelemetryBattery, state::IDLE)), Reaction::Reached { state: state::IDLE });
    assert_eq!(o.boat_state(), state::IDLE);
}

#[test]
fn unconfirmed_change_expires_at_its_deadline() {
    let mut o = Orchestrator::new();
    assert!(o.check_deadline(u64::MAX).is_none());
    let t = proposed(o.on_event(&command_event(Module::Cockpit, Module::DriverInterface, command::START)));
    o.commit_transition(t, 500);
    o.on_event(&state_event(Module::Cockpit, state::STARTED));
    assert!(o.check_deadline(3499).is_none());
    assert!(o.is_pending());
    let expired = o.check_deadline(3500).unwrap();
    assert_eq!(expired.expected_state, state::STARTED);
    assert_eq!(expired.deadline_ms, 3500);
    assert_eq!(expired.waiting_on, vec![Module::TelemetryBattery, Module::HighPower]);
    assert!(!o.is_pending());
    // The boat stays in its intermediate state, where no command applies.
    assert_eq!(o.boat_state(), state::STARTING);
    assert_eq!(
        o.on_event(&command_event(Module::Cockpit, Module::DriverInterface, command::START)),
        Reaction::Nothing
    );
    assert!(o.check_deadline(10_000).is_none());
}
