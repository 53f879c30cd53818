//! The start/shutdown orchestrator of the boat, run by the DriverInterface PCB.
//!
//! A START addressed to us (or broadcast) while the boat is idle, or a SHUTDOWN
//! while it is started, moves the boat to the matching intermediate state, is
//! relayed to every other orchestrated PCB and waits for each of them to report
//! the final state. Only when all of them have confirmed does the boat reach
//! that state. A PCB that does not confirm within the timeout is reported.
//!
//! The receiving loop, the clock and the socket belong to the caller: it feeds
//! categorized events and the current time in milliseconds, and performs the
//! sends that the returned reactions ask for.

use vstd::prelude::*;

use crate::categorize::{categorize, categorize_spec, event_source, source_of, CanRxEvent};
use crate::dashboard_state::{alert_applied, battery_charge_raw, update_alert, PcbStatus};
use crate::dbc::{Messages, TelemetryBatterySensor};
use crate::protocol::{command, error, state, Module};
use crate::send::error_frame;

verus! {

/// How long to wait for a confirmation before treating a PCB as unresponsive.
pub const CONFIRMATION_TIMEOUT_MS: u64 = 3000;

/// How often the receiving loop wakes up without traffic to check the deadline.
pub const POLL_TICK_MS: u64 = 250;

/// The PCBs expected to confirm a state change, in relay order. Hydrogen is no
/// longer used and is not among them.
pub open spec fn expected_confirmers() -> Seq<Module> {
    seq![Module::Cockpit, Module::TelemetryBattery, Module::HighPower]
}

/// The PCBs expected to confirm a state change, in relay order.
pub fn confirmers() -> (v: Vec<Module>)
    ensures
        v@ == expected_confirmers(),
{
    let mut v: Vec<Module> = Vec::new();
    v.push(Module::Cockpit);
    v.push(Module::TelemetryBattery);
    v.push(Module::HighPower);
    v
}

/// Whether a command to `target` concerns us.
pub open spec fn is_addressed_to_us(target: Module) -> bool {
    target == Module::DriverInterface || target == Module::Broadcast
}

/// The (intermediate, final) states a command leads to from `boat_state`: START
/// only from IDLE, SHUTDOWN only from STARTED; any other command, or a command
/// in any other state, leads nowhere.
pub open spec fn transition_for(boat_state: u8, command_raw: u8) -> Option<(u8, u8)> {
    if command_raw == command::START && boat_state == state::IDLE {
        Some((state::STARTING, state::STARTED))
    } else if command_raw == command::SHUTDOWN && boat_state == state::STARTED {
        Some((state::SHUTTING_DOWN, state::IDLE))
    } else {
        None
    }
}

/// A state change awaiting the orchestrated PCBs' confirmations.
#[derive(Debug)]
pub struct PendingConfirmation {
    /// The state each PCB must report.
    pub expected_state: u8,
    /// The time, in milliseconds of the caller's clock, after which it expires.
    pub deadline_ms: u64,
    /// The PCBs that have not confirmed yet.
    pub waiting_on: Vec<Module>,
}

/// The mathematical content of a pending confirmation.
pub struct PendingView {
    pub expected_state: u8,
    pub deadline_ms: u64,
    pub waiting_on: Seq<Module>,
}

impl View for PendingConfirmation {
    type V = PendingView;

    open spec fn view(&self) -> PendingView {
        PendingView {
            expected_state: self.expected_state,
            deadline_ms: self.deadline_ms,
            waiting_on: self.waiting_on@,
        }
    }
}

/// The mathematical content of the orchestrator.
pub struct OrchestratorView {
    pub boat_state: u8,
    pub pending: Option<PendingView>,
}

impl OrchestratorView {
    /// The orchestrator's invariant: the boat is in one of its four states; a
    /// pending confirmation exists only while the boat is in an intermediate
    /// state, expects that transition's final state, and waits on at least one
    /// of the expected confirmers.
    pub open spec fn wf(self) -> bool {
        &&& self.boat_state <= state::SHUTTING_DOWN
        &&& self.pending matches Some(p) ==> {
            &&& (self.boat_state == state::STARTING && p.expected_state == state::STARTED) || (
            self.boat_state == state::SHUTTING_DOWN && p.expected_state == state::IDLE)
            &&& p.waiting_on.len() > 0
            &&& forall|i: int|
                0 <= i < p.waiting_on.len() ==> expected_confirmers().contains(#[trigger] p.waiting_on[i])
        }
    }
}

/// A state change that a command asks for, to be committed once its
/// intermediate state has been announced on the bus.
#[derive(Debug, Clone, Copy, PartialEq, Eq, Structural)]
pub struct Transition {
    /// The PCB that sent the command; it is not relayed the command.
    pub source: Module,
    pub command_raw: u8,
    /// The boat state the command was accepted in.
    pub from_state: u8,
    pub intermediate: u8,
    pub final_state: u8,
}

/// What the caller must do after an event.
#[derive(Debug, Clone, Copy, PartialEq, Eq, Structural)]
pub enum Reaction {
    /// Nothing to send.
    Nothing,
    /// Every PCB confirmed: the boat is now in `state`, which must be announced.
    Reached { state: u8 },
    /// A command was accepted: announce `intermediate`, then commit the transition.
    Proposed(Transition),
}

/// The state and reaction after an event.
pub open spec fn on_event_spec(v: OrchestratorView, event: CanRxEvent) -> (OrchestratorView, Reaction) {
    match event {
        CanRxEvent::ProcedureState { source, state_raw } => match v.pending {
            Some(p) => if state_raw == p.expected_state {
                let left = p.waiting_on.filter(|m: Module| m != source);
                if left.len() == 0 {
                    (
                        OrchestratorView { boat_state: p.expected_state, pending: None },
                        Reaction::Reached { state: p.expected_state },
                    )
                } else {
                    (
                        OrchestratorView {
                            boat_state: v.boat_state,
                            pending: Some(PendingView { waiting_on: left, ..p }),
                        },
                        Reaction::Nothing,
                    )
                }
            } else {
                (v, Reaction::Nothing)
            },
            None => (v, Reaction::Nothing),
        },
        CanRxEvent::ProcedureCommand { source, target, command_raw } => if is_addressed_to_us(target) {
            match transition_for(v.boat_state, command_raw) {
                Some((intermediate, final_state)) => (
                    v,
                    Reaction::Proposed(
                        Transition { source, command_raw, from_state: v.boat_state, intermediate, final_state },
                    ),
                ),
                None => (v, Reaction::Nothing),
            }
        } else {
            (v, Reaction::Nothing)
        },
        _ => (v, Reaction::Nothing),
    }
}

/// The orchestrator once a proposed transition is committed at `now_ms`.
pub open spec fn commit_spec(v: OrchestratorView, t: Transition, now_ms: u64) -> OrchestratorView {
    OrchestratorView {
        boat_state: t.intermediate,
        pending: Some(
            PendingView {
                expected_state: t.final_state,
                deadline_ms: (now_ms + CONFIRMATION_TIMEOUT_MS) as u64,
                waiting_on: expected_confirmers(),
            },
        ),
    }
}

/// The orchestrator after its deadline check at `now_ms`, and the PCBs found
/// not to have confirmed in time.
pub open spec fn expire_spec(v: OrchestratorView, now_ms: u64) -> (OrchestratorView, Seq<Module>) {
    match v.pending {
        Some(p) => if now_ms >= p.deadline_ms {
            (OrchestratorView { boat_state: v.boat_state, pending: None }, p.waiting_on)
        } else {
            (v, Seq::empty())
        },
        None => (v, Seq::empty()),
    }
}

/// The DriverInterface PCB's view of the boat's state and of the state change
/// in flight.
pub struct Orchestrator {
    boat_state: u8,
    pending: Option<PendingConfirmation>,
}

impl View for Orchestrator {
    type V = OrchestratorView;

    closed spec fn view(&self) -> OrchestratorView {
        OrchestratorView {
            boat_state: self.boat_state,
            pending: match self.pending {
                Some(p) => Some(p@),
                None => None,
            },
        }
    }
}

impl Orchestrator {
    /// The orchestrator's invariant.
    pub open spec fn wf(&self) -> bool {
        self@.wf()
    }

    /// An idle boat with nothing in flight.
    pub fn new() -> (o: Orchestrator)
        ensures
            o@.boat_state == state::IDLE,
            o@.pending is None,
            o.wf(),
    {
        Orchestrator { boat_state: state::IDLE, pending: None }
    }

    /// The boat's current state.
    pub fn boat_state(&self) -> (s: u8)
        ensures
            s == self@.boat_state,
    {
        self.boat_state
    }

    /// Whether a state change is awaiting confirmations.
    pub fn is_pending(&self) -> (b: bool)
        ensures
            b == self@.pending is Some,
    {
        self.pending.is_some()
    }

    /// Reacts to an event from a PCB. A state report equal to the expected state
    /// removes its sender from the PCBs still awaited; when none is left the boat
    /// reaches that state. A START or SHUTDOWN addressed to us that applies to
    /// the current state is proposed as a transition; the state does not change
    /// until it is committed.
    pub fn on_event(&mut self, event: &CanRxEvent) -> (r: Reaction)
        requires
            old(self).wf(),
        ensures
            final(self).wf(),
            (final(self)@, r) == on_event_spec(old(self)@, *event),
    {
        match *event {
            CanRxEvent::ProcedureState { source, state_raw } => {
                let mut reached: Option<u8> = None;
                match &mut self.pending {
                    Some(p) => {
                        if state_raw == p.expected_state {
                            let left = without_module(&p.waiting_on, source);
                            proof {
                                lemma_filter_stays_within(
                                    p.waiting_on@,
                                    |m: Module| m != source,
                                    expected_confirmers(),
                                );
                            }
                            if left.len() == 0 {
                                reached = Some(p.expected_state);
                            } else {
                                p.waiting_on = left;
                            }
                        }
                    },
                    None => {},
                }
                match reached {
                    Some(s) => {
                        self.boat_state = s;
                        self.pending = None;
                        Reaction::Reached { state: s }
                    },
                    None => Reaction::Nothing,
                }
            },
            CanRxEvent::ProcedureCommand { source, target, command_raw } => {
                if target == Module::DriverInterface || target == Module::Broadcast {
                    match plan_transition(self.boat_state, command_raw) {
                        Some((intermediate, final_state)) => Reaction::Proposed(
                            Transition {
                                source,
                                command_raw,
                                from_state: self.boat_state,
                                intermediate,
                                final_state,
                            },
                        ),
                        None => Reaction::Nothing,
                    }
                } else {
                    Reaction::Nothing
                }
            },
            _ => Reaction::Nothing,
        }
    }
}

impl Orchestrator {
    /// Commits a proposed transition once its intermediate state has been
    /// announced: the boat enters the intermediate state and awaits the final
    /// state from every expected confirmer until `now_ms` plus the timeout.
    /// Returns the PCBs the command must be relayed to: every expected
    /// confirmer except the one that sent it, in relay order.
    pub fn commit_transition(&mut self, t: Transition, now_ms: u64) -> (relay: Vec<Module>)
        requires
            old(self).wf(),
            t.from_state == old(self)@.boat_state,
            transition_for(t.from_state, t.command_raw) == Some((t.intermediate, t.final_state)),
            now_ms <= u64::MAX - CONFIRMATION_TIMEOUT_MS,
        ensures
            final(self).wf(),
            final(self)@.boat_state == t.intermediate,
            final(self)@.pending == Some(
                PendingView {
                    expected_state: t.final_state,
                    deadline_ms: (now_ms + CONFIRMATION_TIMEOUT_MS) as u64,
                    waiting_on: expected_confirmers(),
                },
            ),
            relay@ == expected_confirmers().filter(|m: Module| m != t.source),
            final(self)@ == commit_spec(old(self)@, t, now_ms),
    {
        let waiting_on = confirmers();
        let relay = without_module(&waiting_on, t.source);
        self.boat_state = t.intermediate;
        self.pending = Some(
            PendingConfirmation {
                expected_state: t.final_state,
                deadline_ms: now_ms + CONFIRMATION_TIMEOUT_MS,
                waiting_on,
            },
        );
        relay
    }

    /// Expires the pending state change once `now_ms` has reached its deadline,
    /// handing it back so that every PCB still awaited can be reported; the
    /// boat stays in its intermediate state.
    pub fn check_deadline(&mut self, now_ms: u64) -> (expired: Option<PendingConfirmation>)
        requires
            old(self).wf(),
        ensures
            final(self).wf(),
            final(self)@.boat_state == old(self)@.boat_state,
            match old(self)@.pending {
                Some(p) => if now_ms >= p.deadline_ms {
                    &&& final(self)@.pending is None
                    &&& expired matches Some(e) && e@ == p
                } else {
                    &&& final(self)@.pending == old(self)@.pending
                    &&& expired is None
                },
                None => final(self)@.pending is None && expired is None,
            },
            final(self)@ == expire_spec(old(self)@, now_ms).0,
            expired matches Some(e) ==> e@.waiting_on == expire_spec(old(self)@, now_ms).1,
    {
        let due = match &self.pending {
            Some(p) => now_ms >= p.deadline_ms,
            None => false,
        };
        if due {
            self.pending.take()
        } else {
            None
        }
    }
}

/// What the receiving loop must do with one received message.
#[derive(Debug)]
pub struct Received {
    /// The raw battery state of charge the message carries, for the gauges.
    pub battery_charge_raw: Option<u8>,
    /// The event the message collapses into, to be logged.
    pub event: Option<CanRxEvent>,
    /// The event comes from the retired Hydrogen PCB: it is neither logged nor
    /// acted upon, and the loop goes straight on to the next message.
    pub ignored: bool,
    /// What the orchestrator asks for.
    pub reaction: Reaction,
}

/// Whether an event comes from the retired Hydrogen PCB.
pub open spec fn is_retired_source(e: Option<CanRxEvent>) -> bool {
    e matches Some(ev) && event_source(ev) == Module::Hydrogen
}

impl Orchestrator {
    /// Handles one received message: reads the battery gauge off it,
    /// categorizes it and, unless it is dropped or comes from the retired
    /// Hydrogen PCB, shows an error or warning on its sender's panel row and
    /// feeds it to the orchestrator.
    pub fn receive(&mut self, panel: &mut Vec<PcbStatus>, msg: Messages) -> (r: Received)
        requires
            old(self).wf(),
        ensures
            final(self).wf(),
            r.battery_charge_raw == (match msg {
                Messages::LpPcb03D(TelemetryBatterySensor::M0 { batt_so_c }) => Some(batt_so_c),
                _ => None::<u8>,
            }),
            r.event == categorize_spec(msg),
            r.ignored == is_retired_source(r.event),
            r.event is None || r.ignored ==> {
                &&& final(self)@ == old(self)@
                &&& final(panel)@ == old(panel)@
                &&& r.reaction == Reaction::Nothing
            },
            !r.ignored ==> match r.event {
                Some(e) => {
                    &&& (final(self)@, r.reaction) == on_event_spec(old(self)@, e)
                    &&& match e {
                        CanRxEvent::Error { source, critical, code } => alert_applied(
                            old(panel)@,
                            final(panel)@,
                            source,
                            critical,
                            code,
                        ),
                        _ => final(panel)@ == old(panel)@,
                    }
                },
                None => true,
            },
    {
        let battery = battery_charge_raw(&msg);
        let event = categorize(msg);
        match event {
            None => Received { battery_charge_raw: battery, event, ignored: false, reaction: Reaction::Nothing },
            Some(e) => {
                if source_of(&e) == Module::Hydrogen {
                    return Received {
                        battery_charge_raw: battery,
                        event,
                        ignored: true,
                        reaction: Reaction::Nothing,
                    };
                }
                if let CanRxEvent::Error { source, critical, code } = e {
                    update_alert(panel, source, critical, code);
                }
                let reaction = self.on_event(&e);
                Received { battery_charge_raw: battery, event, ignored: false, reaction }
            },
        }
    }
}

/// The reports due for an expired state change: for every PCB that never
/// confirmed, in order, our own CAN fault frame. Error frames carry no
/// destination; the PCB is named for the log only.
pub fn missing_confirmation_reports(expired: &PendingConfirmation) -> (reports: Vec<(Module, Messages)>)
    ensures
        reports@.len() == expired.waiting_on@.len(),
        forall|i: int|
            0 <= i < reports@.len() ==> #[trigger] reports@[i] == (
            expired.waiting_on@[i],
            Messages::HpPcb05E { error_type: error::CAN_FAULT },
        ),
{
    let mut reports: Vec<(Module, Messages)> = Vec::new();
    let n = expired.waiting_on.len();
    let mut i: usize = 0;
    while i < n
        invariant
            n == expired.waiting_on@.len(),
            i <= n,
            reports@.len() == i,
            forall|k: int|
                0 <= k < i ==> #[trigger] reports@[k] == (
                expired.waiting_on@[k],
                Messages::HpPcb05E { error_type: error::CAN_FAULT },
            ),
        decreases n - i,
    {
        reports.push((expired.waiting_on[i], error_frame(error::CAN_FAULT)));
        i = i + 1;
    }
    reports
}

/// Whatever the boat's state, a START addressed to the DriverInterface PCB or
/// broadcast while the boat is IDLE is proposed as the transition through
/// STARTING to STARTED, and a SHUTDOWN so addressed while it is STARTED as the
/// transition through SHUTTING_DOWN to IDLE, carrying the command's source and
/// command and the current state; proposing changes nothing yet. Which of the
/// two addressees the command names makes no difference.
pub proof fn lemma_applicable_commands_are_proposed(
    v: OrchestratorView,
    source: Module,
    target: Module,
    command_raw: u8,
)
    requires
        v.wf(),
        target == Module::DriverInterface || target == Module::Broadcast,
    ensures
        on_event_spec(v, CanRxEvent::ProcedureCommand { source, target, command_raw }) == on_event_spec(
            v,
            CanRxEvent::ProcedureCommand { source, target: Module::DriverInterface, command_raw },
        ),
        command_raw == 0 && v.boat_state == 0 ==> on_event_spec(
            v,
            CanRxEvent::ProcedureCommand { source, target, command_raw },
        ) == (v, Reaction::Proposed(
            Transition { source, command_raw: 0, from_state: 0, intermediate: 1, final_state: 2 },
        )),
        command_raw == 1 && v.boat_state == 2 ==> on_event_spec(
            v,
            CanRxEvent::ProcedureCommand { source, target, command_raw },
        ) == (v, Reaction::Proposed(
            Transition { source, command_raw: 1, from_state: 2, intermediate: 3, final_state: 0 },
        )),
{
}

/// Only the retired Hydrogen PCB's events are skipped: an event is skipped
/// exactly when its source is Hydrogen, whatever its kind, so every message
/// from any other PCB (data frames included) is handled; the absence of an
/// event is never skipped.
pub proof fn lemma_only_hydrogen_is_ignored(e: CanRxEvent, msg: Messages)
    ensures
        !is_retired_source(None),
        is_retired_source(Some(e)) <==> match e {
            CanRxEvent::Error { source, .. } => source == Module::Hydrogen,
            CanRxEvent::ProcedureStatus { source, .. } => source == Module::Hydrogen,
            CanRxEvent::ProcedureState { source, .. } => source == Module::Hydrogen,
            CanRxEvent::ProcedureCommand { source, .. } => source == Module::Hydrogen,
            CanRxEvent::Data { source } => source == Module::Hydrogen,
        },
        crate::categorize::message_sender(msg) != Module::Hydrogen ==> !is_retired_source(
            categorize_spec(msg),
        ),
{
    crate::categorize::lemma_categorize_keeps_sender(msg);
}

/// A state report that completes a confirmation comes from the last PCB still
/// awaited and carries the expected state: the boat reaches a new state only
/// once every expected PCB has confirmed it, and then announces it.
pub proof fn lemma_state_changes_only_when_all_confirmed(v: OrchestratorView, event: CanRxEvent)
    requires
        v.wf(),
    ensures
        ({
            let (w, r) = on_event_spec(v, event);
            w.boat_state != v.boat_state ==> {
                &&& v.pending matches Some(p)
                &&& event matches CanRxEvent::ProcedureState { source, state_raw }
                &&& state_raw == p.expected_state
                &&& forall|i: int| 0 <= i < p.waiting_on.len() ==> p.waiting_on[i] == source
                &&& w.boat_state == p.expected_state
                &&& w.pending is None
                &&& r == Reaction::Reached { state: p.expected_state }
            }
        }),
{
    broadcast use vstd::seq_lib::group_filter_ensures;

    if let CanRxEvent::ProcedureState { source, state_raw } = event {
        if let Some(p) = v.pending {
            let pred = |m: Module| m != source;
            let left = p.waiting_on.filter(pred);
            if left.len() == 0 {
                assert forall|i: int| 0 <= i < p.waiting_on.len() implies p.waiting_on[i] == source by {
                    if p.waiting_on[i] != source {
                        assert(pred(p.waiting_on[i]));
                        assert(left.contains(p.waiting_on[i]));
                    }
                }
            }
        }
    }
}

/// A command is proposed only when addressed to us (or broadcast) and only
/// from the state it applies to: START from IDLE (through STARTING to STARTED),
/// SHUTDOWN from STARTED (through SHUTTING_DOWN to IDLE). While a state change
/// is in flight no command is proposed, so a stray or duplicate command cannot
/// restart it; and no event but a completing state report moves the boat.
pub proof fn lemma_commands_apply_only_to_their_state(v: OrchestratorView, event: CanRxEvent)
    requires
        v.wf(),
    ensures
        ({
            let (w, r) = on_event_spec(v, event);
            &&& r matches Reaction::Proposed(t) ==> {
                &&& event matches CanRxEvent::ProcedureCommand { source, target, command_raw }
                    && is_addressed_to_us(target) && t.source == source && t.command_raw == command_raw
                &&& t.from_state == v.boat_state
                &&& (t.command_raw == command::START && t.from_state == state::IDLE
                    && t.intermediate == state::STARTING && t.final_state == state::STARTED) || (
                t.command_raw == command::SHUTDOWN && t.from_state == state::STARTED
                    && t.intermediate == state::SHUTTING_DOWN && t.final_state == state::IDLE)
                &&& w == v
            }
            &&& v.pending is Some ==> !(r is Proposed)
            &&& !(event is ProcedureState) ==> w == v
        }),
{
}

/// The orchestrator after a sequence of events, in order.
pub open spec fn run_events(v: OrchestratorView, events: Seq<CanRxEvent>) -> OrchestratorView
    decreases events.len(),
{
    if events.len() == 0 {
        v
    } else {
        run_events(on_event_spec(v, events[0]).0, events.drop_first())
    }
}

/// Some event of `events` is `m` reporting the state `s`.
pub open spec fn reported(events: Seq<CanRxEvent>, m: Module, s: u8) -> bool {
    exists|i: int|
        0 <= i < events.len() && events[i] == (CanRxEvent::ProcedureState { source: m, state_raw: s })
}

/// While a state change is in flight, whatever events arrive, the boat leaves
/// its intermediate state only if every PCB that was still awaited has reported
/// the expected state among them. After a committed transition these are all
/// the expected confirmers.
pub proof fn lemma_no_state_change_without_every_confirmation(v: OrchestratorView, events: Seq<CanRxEvent>)
    requires
        v.wf(),
        v.pending is Some,
        run_events(v, events).boat_state != v.boat_state,
    ensures
        forall|i: int|
            0 <= i < v.pending->0.waiting_on.len() ==> reported(
                events,
                #[trigger] v.pending->0.waiting_on[i],
                v.pending->0.expected_state,
            ),
    decreases events.len(),
{
    broadcast use vstd::seq_lib::group_filter_ensures;

    let p = v.pending->0;
    if events.len() == 0 {
        return;
    }
    let e = events[0];
    let rest = events.drop_first();
    let (u, r) = on_event_spec(v, e);
    lemma_state_changes_only_when_all_confirmed(v, e);
    lemma_on_event_keeps_wf(v, e);
    if u.boat_state != v.boat_state {
        assert forall|i: int| 0 <= i < p.waiting_on.len() implies reported(
            events,
            #[trigger] p.waiting_on[i],
            p.expected_state,
        ) by {
            assert(events[0] == (CanRxEvent::ProcedureState {
                source: p.waiting_on[i],
                state_raw: p.expected_state,
            }));
        }
    } else {
        assert(u.pending is Some);
        let q = u.pending->0;
        assert(run_events(v, events) == run_events(u, rest));
        lemma_no_state_change_without_every_confirmation(u, rest);
        assert forall|i: int| 0 <= i < p.waiting_on.len() implies reported(
            events,
            #[trigger] p.waiting_on[i],
            p.expected_state,
        ) by {
            let m = p.waiting_on[i];
            if q.waiting_on.contains(m) {
                let j = choose|j: int| 0 <= j < q.waiting_on.len() && q.waiting_on[j] == m;
                assert(reported(rest, q.waiting_on[j], q.expected_state));
                let k = choose|k: int|
                    0 <= k < rest.len() && rest[k] == (CanRxEvent::ProcedureState {
                        source: m,
                        state_raw: p.expected_state,
                    });
                assert(events[k + 1] == rest[k]);
            } else {
                assert(q.waiting_on != p.waiting_on);
                if let CanRxEvent::ProcedureState { source, state_raw } = e {
                    let pred = |x: Module| x != source;
                    assert(q.waiting_on == p.waiting_on.filter(pred));
                    if m != source {
                        assert(pred(p.waiting_on[i]));
                    }
                    assert(events[0] == (CanRxEvent::ProcedureState {
                        source: m,
                        state_raw: p.expected_state,
                    }));
                }
            }
        }
    }
}

/// Every event keeps the orchestrator's invariant.
pub proof fn lemma_on_event_keeps_wf(v: OrchestratorView, event: CanRxEvent)
    requires
        v.wf(),
    ensures
        on_event_spec(v, event).0.wf(),
{
    if let CanRxEvent::ProcedureState { source, state_raw } = event {
        if let Some(p) = v.pending {
            lemma_filter_stays_within(p.waiting_on, |m: Module| m != source, expected_confirmers());
        }
    }
}

/// The (intermediate, final) states a command leads to from `boat_state`.
pub fn plan_transition(boat_state: u8, command_raw: u8) -> (r: Option<(u8, u8)>)
    ensures
        r == transition_for(boat_state, command_raw),
{
    if command_raw == command::START && boat_state == state::IDLE {
        Some((state::STARTING, state::STARTED))
    } else if command_raw == command::SHUTDOWN && boat_state == state::STARTED {
        Some((state::SHUTTING_DOWN, state::IDLE))
    } else {
        None
    }
}

/// Filtering keeps only elements of the sequence it filters, so whatever holds
/// of every element of `s` holds of every element of its filtered form.
pub(crate) proof fn lemma_filter_stays_within(s: Seq<Module>, pred: spec_fn(Module) -> bool, allowed: Seq<Module>)
    requires
        forall|i: int| 0 <= i < s.len() ==> allowed.contains(#[trigger] s[i]),
    ensures
        forall|i: int| 0 <= i < s.filter(pred).len() ==> allowed.contains(#[trigger] s.filter(pred)[i]),
    decreases s.len(),
{
    reveal(Seq::filter);
    if s.len() > 0 {
        let rest = s.drop_last();
        assert forall|i: int| 0 <= i < rest.len() implies allowed.contains(#[trigger] rest[i]) by {
            assert(rest[i] == s[i]);
        }
        lemma_filter_stays_within(rest, pred, allowed);
        let sub = rest.filter(pred);
        assert(allowed.contains(s[s.len() - 1]));
        assert forall|i: int| 0 <= i < s.filter(pred).len() implies allowed.contains(
            #[trigger] s.filter(pred)[i],
        ) by {
            if i < sub.len() {
                assert(s.filter(pred)[i] == sub[i]);
            } else {
                assert(s.filter(pred)[i] == s[s.len() - 1]);
            }
        }
    }
}

/// `modules` without every occurrence of `m`, in the same order.
pub fn without_module(modules: &Vec<Module>, m: Module) -> (r: Vec<Module>)
    ensures
        r@ == modules@.filter(|x: Module| x != m),
{
    let ghost pred = |x: Module| x != m;
    let mut r: Vec<Module> = Vec::new();
    let n = modules.len();
    let mut i: usize = 0;
    while i < n
        invariant
            n == modules@.len(),
            i <= n,
            pred == (|x: Module| x != m),
            r@ == modules@.take(i as int).filter(pred),
        decreases n - i,
    {
        if modules[i] != m {
            r.push(modules[i]);
        }
        proof {
            reveal(Seq::filter);
            let t = modules@.take(i + 1);
            assert(t.drop_last() =~= modules@.take(i as int));
            assert(t.last() == modules@[i as int]);
        }
        i = i + 1;
    }
    assert(modules@.take(n as int) =~= modules@);
    r
}

} // verus!
