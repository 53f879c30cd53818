//! Laws over whole runs of the receiving loop.
//!
//! One pass of the loop reads a frame or times out, handles the categorized
//! event (if any) and then checks the pending state change's deadline. A
//! frame from the retired Hydrogen PCB is skipped entirely, deadline check
//! included. A pass is what the receiving loop makes of `Orchestrator::on_event`,
//! `commit_transition` and `check_deadline`, whose contracts are exactly
//! `on_event_spec`, `commit_spec` and `expire_spec`. The laws assume every write
//! to the bus succeeds, so that a proposed transition is committed as soon as
//! it is announced.

use vstd::prelude::*;

use crate::categorize::CanRxEvent;
use crate::protocol::{state, Module};
use crate::receiver::{
    commit_spec, expected_confirmers, expire_spec, is_retired_source, lemma_filter_stays_within,
    lemma_on_event_keeps_wf, on_event_spec, transition_for, OrchestratorView, Reaction, CONFIRMATION_TIMEOUT_MS,
};

verus! {

/// One pass of the receiving loop: the event of the frame read (`None` after a
/// timeout, a frame that is not a message of the bus, or a message that
/// collapses into no event) and the time of the pass, in milliseconds.
pub struct Iteration {
    pub event: Option<CanRxEvent>,
    pub now_ms: u64,
}

/// What a pass leaves: the orchestrator, the states announced on the bus (our
/// `CurrentState` frames, in order) and the PCBs reported with a CAN fault for
/// not confirming in time.
pub struct Outcome {
    pub state: OrchestratorView,
    pub announced: Seq<u8>,
    pub unconfirmed: Seq<Module>,
}

/// The orchestrator and the announcements after handling one event: a
/// completed confirmation announces the state reached; an accepted command
/// announces its intermediate state and is committed.
pub open spec fn react_spec(v: OrchestratorView, e: CanRxEvent, now_ms: u64) -> (OrchestratorView, Seq<u8>) {
    let (w, r) = on_event_spec(v, e);
    match r {
        Reaction::Nothing => (w, Seq::empty()),
        Reaction::Reached { state } => (w, seq![state]),
        Reaction::Proposed(t) => (commit_spec(w, t, now_ms), seq![t.intermediate]),
    }
}

/// One pass of the receiving loop.
pub open spec fn iteration_spec(v: OrchestratorView, it: Iteration) -> Outcome {
    if is_retired_source(it.event) {
        Outcome { state: v, announced: Seq::empty(), unconfirmed: Seq::empty() }
    } else {
        let (w, a) = match it.event {
            Some(e) => react_spec(v, e, it.now_ms),
            None => (v, Seq::empty()),
        };
        let (x, u) = expire_spec(w, it.now_ms);
        Outcome { state: x, announced: a, unconfirmed: u }
    }
}

/// The orchestrator after the first `n` passes of a run from `v`.
pub open spec fn state_at(v: OrchestratorView, its: Seq<Iteration>, n: nat) -> OrchestratorView
    decreases n,
{
    if n == 0 {
        v
    } else {
        iteration_spec(state_at(v, its, (n - 1) as nat), its[n - 1]).state
    }
}

/// What pass `n` of a run from `v` leaves.
pub open spec fn outcome_at(v: OrchestratorView, its: Seq<Iteration>, n: nat) -> Outcome {
    iteration_spec(state_at(v, its, n), its[n as int])
}

/// The states announced in the first `n` passes of a run from `v`, in order.
pub open spec fn announced_until(v: OrchestratorView, its: Seq<Iteration>, n: nat) -> Seq<u8>
    decreases n,
{
    if n == 0 {
        Seq::empty()
    } else {
        announced_until(v, its, (n - 1) as nat) + outcome_at(v, its, (n - 1) as nat).announced
    }
}

/// A pass that announces nothing and reports no fault.
pub open spec fn is_quiet(o: Outcome) -> bool {
    o.announced.len() == 0 && o.unconfirmed.len() == 0
}

/// Some pass of `seen` read `m` reporting the state `s`.
pub open spec fn confirmed_in(seen: Seq<Iteration>, m: Module, s: u8) -> bool {
    exists|i: int|
        0 <= i < seen.len() && seen[i].event == Some(CanRxEvent::ProcedureState { source: m, state_raw: s })
}

/// Every module of `ms` was read reporting the state `s` in some pass of `seen`.
pub open spec fn all_confirmed(seen: Seq<Iteration>, ms: Seq<Module>, s: u8) -> bool {
    forall|i: int| 0 <= i < ms.len() ==> confirmed_in(seen, #[trigger] ms[i], s)
}

/// `s` is what the pending change of `v` has become after the passes `seen`:
/// the same boat state, expected state and deadline, still awaiting exactly the
/// PCBs awaited in `v` that have not reported the expected state in `seen`.
pub open spec fn tracks(s: OrchestratorView, v: OrchestratorView, seen: Seq<Iteration>) -> bool {
    &&& s.wf()
    &&& v.pending is Some
    &&& s.pending is Some
    &&& s.boat_state == v.boat_state
    &&& s.pending->0.expected_state == v.pending->0.expected_state
    &&& s.pending->0.deadline_ms == v.pending->0.deadline_ms
    &&& forall|m: Module|
        #![trigger s.pending->0.waiting_on.contains(m)]
        s.pending->0.waiting_on.contains(m) <==> (v.pending->0.waiting_on.contains(m) && !confirmed_in(
            seen,
            m,
            v.pending->0.expected_state,
        ))
}

proof fn lemma_filter_contains_iff(s: Seq<Module>, x: Module, m: Module)
    ensures
        s.filter(|y: Module| y != x).contains(m) <==> (s.contains(m) && m != x),
{
    broadcast use vstd::seq_lib::group_filter_ensures;

    let pred = |y: Module| y != x;
    let f = s.filter(pred);
    if f.contains(m) {
        let k = choose|k: int| 0 <= k < f.len() && f[k] == m;
        assert(pred(f[k]));
        lemma_filter_stays_within(s, pred, s);
        assert(s.contains(f[k]));
    }
    if s.contains(m) && m != x {
        let k = choose|k: int| 0 <= k < s.len() && s[k] == m;
        assert(pred(s[k]));
    }
}

proof fn lemma_confirmed_push(seen: Seq<Iteration>, it: Iteration, m: Module, s: u8)
    ensures
        confirmed_in(seen.push(it), m, s) <==> (confirmed_in(seen, m, s) || it.event == Some(
            CanRxEvent::ProcedureState { source: m, state_raw: s },
        )),
{
    let seen2 = seen.push(it);
    if confirmed_in(seen, m, s) {
        let k = choose|k: int|
            0 <= k < seen.len() && seen[k].event == Some(CanRxEvent::ProcedureState { source: m, state_raw: s });
        assert(seen2[k] == seen[k]);
    }
    if it.event == Some(CanRxEvent::ProcedureState { source: m, state_raw: s }) {
        assert(seen2[seen.len() as int] == it);
    }
    if confirmed_in(seen2, m, s) {
        let k = choose|k: int|
            0 <= k < seen2.len() && seen2[k].event == Some(CanRxEvent::ProcedureState { source: m, state_raw: s });
        if k < seen.len() {
            assert(seen2[k] == seen[k]);
        }
    }
}

/// A sequence with no member is empty.
proof fn lemma_no_member_empty(s: Seq<Module>)
    requires
        forall|m: Module| !s.contains(m),
    ensures
        s.len() == 0,
{
    if s.len() > 0 {
        assert(s.contains(s[0]));
    }
}

/// While a state change is pending, one pass either completes it (when the
/// PCBs awaited have now all confirmed: the expected state is announced and
/// nothing is reported), leaves it pending (when some PCB is still awaited and
/// the deadline is not reached, or the pass is skipped: nothing is announced or
/// reported), or expires it (otherwise: the PCBs still awaited are reported and
/// the boat keeps its state).
proof fn lemma_step_while_pending(v: OrchestratorView, s: OrchestratorView, seen: Seq<Iteration>, it: Iteration)
    requires
        v.wf(),
        tracks(s, v, seen),
    ensures
        ({
            let o = iteration_spec(s, it);
            let seen2 = seen.push(it);
            let p = v.pending->0;
            &&& all_confirmed(seen2, p.waiting_on, p.expected_state) ==> {
                &&& o.announced == seq![p.expected_state]
                &&& o.unconfirmed.len() == 0
                &&& o.state == OrchestratorView { boat_state: p.expected_state, pending: None }
            }
            &&& !all_confirmed(seen2, p.waiting_on, p.expected_state) && (is_retired_source(it.event)
                || it.now_ms < p.deadline_ms) ==> is_quiet(o) && tracks(o.state, v, seen2)
            &&& !all_confirmed(seen2, p.waiting_on, p.expected_state) && !is_retired_source(it.event)
                && it.now_ms >= p.deadline_ms ==> {
                &&& o.announced.len() == 0
                &&& o.unconfirmed.len() > 0
                &&& o.state == OrchestratorView { boat_state: v.boat_state, pending: None }
            }
        }),
{
    let p = v.pending->0;
    let q = s.pending->0;
    let e_state = p.expected_state;
    let seen2 = seen.push(it);
    let o = iteration_spec(s, it);
    assert forall|m: Module|
        confirmed_in(seen2, m, e_state) <==> (confirmed_in(seen, m, e_state) || it.event == Some(
            CanRxEvent::ProcedureState { source: m, state_raw: e_state },
        )) by {
        lemma_confirmed_push(seen, it, m, e_state);
    }
    // Every PCB awaited in `v` is an expected confirmer, never Hydrogen.
    assert(!p.waiting_on.contains(Module::Hydrogen)) by {
        if p.waiting_on.contains(Module::Hydrogen) {
            let k = choose|k: int| 0 <= k < p.waiting_on.len() && p.waiting_on[k] == Module::Hydrogen;
            assert(expected_confirmers().contains(p.waiting_on[k]));
            let j = choose|j: int| 0 <= j < 3 && expected_confirmers()[j] == Module::Hydrogen;
        }
    }
    assert(q.waiting_on.contains(q.waiting_on[0]));
    // Whether all have confirmed, in terms of membership.
    let all2 = all_confirmed(seen2, p.waiting_on, e_state);
    assert(all2 <==> forall|m: Module| p.waiting_on.contains(m) ==> confirmed_in(seen2, m, e_state)) by {
        if all2 {
            assert forall|m: Module| p.waiting_on.contains(m) implies confirmed_in(seen2, m, e_state) by {
                let k = choose|k: int| 0 <= k < p.waiting_on.len() && p.waiting_on[k] == m;
            }
        }
        if forall|m: Module| p.waiting_on.contains(m) ==> confirmed_in(seen2, m, e_state) {
            assert forall|i: int| 0 <= i < p.waiting_on.len() implies confirmed_in(
                seen2,
                #[trigger] p.waiting_on[i],
                e_state,
            ) by {
                assert(p.waiting_on.contains(p.waiting_on[i]));
            }
        }
    }
    let confirming = match it.event {
        Some(CanRxEvent::ProcedureState { source, state_raw }) => state_raw == e_state,
        _ => false,
    };
    if !confirming || is_retired_source(it.event) {
        // Nothing confirms any PCB awaited: the awaited set is unchanged.
        assert forall|m: Module| p.waiting_on.contains(m) implies (confirmed_in(seen2, m, e_state)
            <==> confirmed_in(seen, m, e_state)) by {}
        assert(!all2) by {
            let m0 = q.waiting_on[0];
            assert(p.waiting_on.contains(m0) && !confirmed_in(seen, m0, e_state));
        }
        assert(tracks(s, v, seen2));
        if !is_retired_source(it.event) {
            if let Some(e) = it.event {
                lemma_on_event_keeps_wf(s, e);
                assert(on_event_spec(s, e).1 == Reaction::Nothing);
                assert(on_event_spec(s, e).0 == s);
            }
        }
    } else {
        let src = it.event->0->ProcedureState_source;
        let pred = |m: Module| m != src;
        let left = q.waiting_on.filter(pred);
        assert forall|m: Module| left.contains(m) <==> (p.waiting_on.contains(m) && !confirmed_in(
            seen2,
            m,
            e_state,
        )) by {
            lemma_filter_contains_iff(q.waiting_on, src, m);
        }
        lemma_on_event_keeps_wf(s, it.event->0);
        if left.len() == 0 {
            assert forall|m: Module| p.waiting_on.contains(m) implies confirmed_in(seen2, m, e_state) by {
                if !confirmed_in(seen2, m, e_state) {
                    assert(left.contains(m));
                }
            }
        } else {
            assert(left.contains(left[0]));
            assert(!all2);
            assert(tracks(on_event_spec(s, it.event->0).0, v, seen2));
        }
    }
}

/// A module confirmed in a prefix of a run stays confirmed in every longer prefix.
proof fn lemma_confirmed_grows(its: Seq<Iteration>, a: int, b: int, m: Module, st: u8)
    requires
        0 <= a <= b <= its.len(),
        confirmed_in(its.take(a), m, st),
    ensures
        confirmed_in(its.take(b), m, st),
{
    let k = choose|k: int|
        0 <= k < its.take(a).len() && its.take(a)[k].event == Some(
            CanRxEvent::ProcedureState { source: m, state_raw: st },
        );
    assert(its.take(b)[k] == its.take(a)[k]);
}

/// While PCBs remain awaited and the deadline is not reached, a pending
/// change stays pending, tracking the confirmations read, and every pass is
/// quiet.
proof fn lemma_pending_run(v: OrchestratorView, its: Seq<Iteration>, n: nat)
    requires
        v.wf(),
        v.pending is Some,
        n <= its.len(),
        forall|i: int|
            #![trigger its[i]]
            0 <= i < n ==> !all_confirmed(its.take(i + 1), v.pending->0.waiting_on, v.pending->0.expected_state)
                && (is_retired_source(its[i].event) || its[i].now_ms < v.pending->0.deadline_ms),
    ensures
        tracks(state_at(v, its, n), v, its.take(n as int)),
        forall|i: int| 0 <= i < n ==> is_quiet(#[trigger] outcome_at(v, its, i as nat)),
    decreases n,
{
    if n == 0 {
        assert(its.take(0) =~= Seq::<Iteration>::empty());
        assert(v.pending->0.waiting_on.len() > 0);
    } else {
        let k = (n - 1) as nat;
        lemma_pending_run(v, its, k);
        lemma_step_while_pending(v, state_at(v, its, k), its.take(k as int), its[k as int]);
        assert(its.take(k as int).push(its[k as int]) =~= its.take(n as int));
    }
}

/// While a state change is in flight, the confirmation that completes the
/// set of PCBs awaited, and only that one, yields one announcement: of the
/// expected state. Every earlier pass announces nothing and reports no fault,
/// provided the confirmations arrive before the deadline; the change then
/// completes without any fault being reported.
pub proof fn lemma_last_confirmation_announces_once(v: OrchestratorView, its: Seq<Iteration>, k: int)
    requires
        v.wf(),
        v.pending is Some,
        0 <= k < its.len(),
        all_confirmed(its.take(k + 1), v.pending->0.waiting_on, v.pending->0.expected_state),
        !all_confirmed(its.take(k), v.pending->0.waiting_on, v.pending->0.expected_state),
        forall|i: int| 0 <= i < k ==> its[i].now_ms < v.pending->0.deadline_ms,
    ensures
        forall|i: int| 0 <= i < k ==> is_quiet(#[trigger] outcome_at(v, its, i as nat)),
        outcome_at(v, its, k as nat).announced == seq![v.pending->0.expected_state],
        outcome_at(v, its, k as nat).unconfirmed.len() == 0,
        state_at(v, its, (k + 1) as nat) == (OrchestratorView {
            boat_state: v.pending->0.expected_state,
            pending: None,
        }),
{
    let p = v.pending->0;
    assert forall|i: int| #![trigger its[i]] 0 <= i < k implies !all_confirmed(
        its.take(i + 1),
        p.waiting_on,
        p.expected_state,
    ) by {
        if all_confirmed(its.take(i + 1), p.waiting_on, p.expected_state) {
            assert forall|j: int| 0 <= j < p.waiting_on.len() implies confirmed_in(
                its.take(k),
                #[trigger] p.waiting_on[j],
                p.expected_state,
            ) by {
                lemma_confirmed_grows(its, i + 1, k, p.waiting_on[j], p.expected_state);
            }
        }
    }
    lemma_pending_run(v, its, k as nat);
    lemma_step_while_pending(v, state_at(v, its, k as nat), its.take(k), its[k]);
    assert(its.take(k).push(its[k]) =~= its.take(k + 1));
}

/// The state the boat goes to next in its cycle IDLE, STARTING, STARTED,
/// SHUTTING_DOWN, IDLE, ...
pub open spec fn next_state(b: u8) -> u8 {
    ((b + 1) % 4) as u8
}

/// A pass announces at most one state, and only the next one in the boat's
/// cycle, which the boat then is in; otherwise the boat keeps its state.
proof fn lemma_iteration_announces_next(s: OrchestratorView, it: Iteration)
    requires
        s.wf(),
    ensures
        iteration_spec(s, it).state.wf(),
        ({
            let o = iteration_spec(s, it);
            ||| o.announced.len() == 0 && o.state.boat_state == s.boat_state
            ||| o.announced == seq![next_state(s.boat_state)] && o.state.boat_state == next_state(s.boat_state)
        }),
{
    if !is_retired_source(it.event) {
        if let Some(e) = it.event {
            lemma_on_event_keeps_wf(s, e);
            crate::receiver::lemma_commands_apply_only_to_their_state(s, e);
            crate::receiver::lemma_state_changes_only_when_all_confirmed(s, e);
            let (w, r) = on_event_spec(s, e);
            if let Reaction::Proposed(t) = r {
                let c = commit_spec(w, t, it.now_ms);
                assert(expected_confirmers().contains(expected_confirmers()[0]));
                assert forall|i: int|
                    0 <= i < c.pending->0.waiting_on.len() implies expected_confirmers().contains(
                    #[trigger] c.pending->0.waiting_on[i],
                ) by {
                    assert(expected_confirmers()[i] == c.pending->0.waiting_on[i]);
                }
                assert(c.wf());
            }
        }
    }
}

/// The states announced over any run follow the boat's cycle from its current
/// state, one step per announcement: from IDLE they run STARTING, STARTED,
/// SHUTTING_DOWN, IDLE, STARTING, ... and the boat is always in the state last
/// announced.
pub proof fn lemma_announcements_follow_cycle(v: OrchestratorView, its: Seq<Iteration>, n: nat)
    requires
        v.wf(),
        n <= its.len(),
    ensures
        state_at(v, its, n).wf(),
        forall|i: int|
            0 <= i < announced_until(v, its, n).len() ==> #[trigger] announced_until(v, its, n)[i] == ((
            v.boat_state + i + 1) % 4) as u8,
        state_at(v, its, n).boat_state == ((v.boat_state + announced_until(v, its, n).len()) % 4) as u8,
    decreases n,
{
    if n > 0 {
        let k = (n - 1) as nat;
        lemma_announcements_follow_cycle(v, its, k);
        lemma_iteration_announces_next(state_at(v, its, k), its[k as int]);
        let before = announced_until(v, its, k);
        let len = before.len();
        let o = outcome_at(v, its, k);
        if o.announced.len() > 0 {
            assert(((v.boat_state + len) % 4 + 1) % 4 == (v.boat_state + len + 1) % 4);
            assert(announced_until(v, its, n) =~= before.push(next_state(state_at(v, its, k).boat_state)));
        } else {
            assert(announced_until(v, its, n) =~= before);
        }
    }
}

/// A pass that commits a transition: it announces an intermediate state.
pub open spec fn is_commit(o: Outcome) -> bool {
    &&& o.announced.len() == 1
    &&& o.announced[0] == state::STARTING || o.announced[0] == state::SHUTTING_DOWN
}

/// The final state of the transition whose intermediate state is `s`.
pub open spec fn final_of(s: u8) -> u8 {
    if s == state::STARTING {
        state::STARTED
    } else {
        state::IDLE
    }
}

/// The last of the first `n` passes that committed a transition, or -1.
pub open spec fn last_commit(v: OrchestratorView, its: Seq<Iteration>, n: nat) -> int
    decreases n,
{
    if n == 0 {
        -1
    } else if is_commit(outcome_at(v, its, (n - 1) as nat)) {
        n - 1
    } else {
        last_commit(v, its, (n - 1) as nat)
    }
}

/// After `n` passes, a pending change is the one the last commit made: it
/// awaits the expected confirmers that have not confirmed since, with the
/// deadline set at the commit, and every pass since was quiet and before the
/// deadline.
pub open spec fn pending_from_last_commit(v: OrchestratorView, its: Seq<Iteration>, n: nat) -> bool {
    let s = state_at(v, its, n);
    let c = last_commit(v, its, n);
    let w = state_at(v, its, (c + 1) as nat);
    &&& s.wf()
    &&& s.pending is Some ==> {
        &&& 0 <= c < n
        &&& is_commit(outcome_at(v, its, c as nat))
        &&& w.pending is Some
        &&& w.pending->0.waiting_on == expected_confirmers()
        &&& w.pending->0.deadline_ms == its[c].now_ms + CONFIRMATION_TIMEOUT_MS
        &&& w.pending->0.expected_state == final_of(outcome_at(v, its, c as nat).announced[0])
        &&& w.wf()
        &&& tracks(s, w, its.subrange(c + 1, n as int))
        &&& forall|i: int|
            c < i < n ==> is_quiet(#[trigger] outcome_at(v, its, i as nat)) && (is_retired_source(its[i].event)
                || its[i].now_ms < w.pending->0.deadline_ms)
    }
}

/// With nothing pending, a pass announces nothing or commits a transition,
/// and in the latter case the change it makes is pending afterwards, awaiting
/// every expected confirmer.
proof fn lemma_step_while_idle(s: OrchestratorView, it: Iteration)
    requires
        s.wf(),
        s.pending is None,
        it.now_ms <= u64::MAX - CONFIRMATION_TIMEOUT_MS,
    ensures
        ({
            let o = iteration_spec(s, it);
            &&& o.announced.len() == 0 ==> o.state.pending is None
            &&& o.announced.len() > 0 ==> {
                &&& is_commit(o)
                &&& o.state.pending is Some
                &&& o.state.pending->0.waiting_on == expected_confirmers()
                &&& o.state.pending->0.deadline_ms == it.now_ms + CONFIRMATION_TIMEOUT_MS
                &&& o.state.pending->0.expected_state == final_of(o.announced[0])
                &&& o.state.wf()
            }
        }),
{
    lemma_iteration_announces_next(s, it);
    if !is_retired_source(it.event) {
        if let Some(e) = it.event {
            crate::receiver::lemma_commands_apply_only_to_their_state(s, e);
        }
    }
}

/// Every run from a state with nothing pending keeps a pending change tied to
/// the last commit.
proof fn lemma_pending_from_last_commit(v: OrchestratorView, its: Seq<Iteration>, n: nat)
    requires
        v.wf(),
        v.pending is None,
        n <= its.len(),
        forall|i: int| 0 <= i < its.len() ==> (#[trigger] its[i]).now_ms <= u64::MAX - CONFIRMATION_TIMEOUT_MS,
    ensures
        pending_from_last_commit(v, its, n),
    decreases n,
{
    if n > 0 {
        let k = (n - 1) as nat;
        lemma_pending_from_last_commit(v, its, k);
        let s = state_at(v, its, k);
        let o = outcome_at(v, its, k);
        lemma_iteration_announces_next(s, its[k as int]);
        if s.pending is None {
            lemma_step_while_idle(s, its[k as int]);
            if o.announced.len() > 0 {
                assert(last_commit(v, its, n) == k);
                assert(its.subrange((k + 1) as int, n as int) =~= Seq::<Iteration>::empty());
                assert(o.state.pending->0.waiting_on.contains(o.state.pending->0.waiting_on[0]));
                assert(tracks(o.state, o.state, its.subrange((k + 1) as int, n as int)));
            }
        } else {
            let c = last_commit(v, its, k);
            let w = state_at(v, its, (c + 1) as nat);
            lemma_step_while_pending(w, s, its.subrange(c + 1, k as int), its[k as int]);
            assert(its.subrange(c + 1, k as int).push(its[k as int]) =~= its.subrange(c + 1, n as int));
            if !is_commit(o) {
                assert(last_commit(v, its, n) == c);
            }
        }
    }
}

/// Every announcement of a final state (STARTED or IDLE) in a run from a state
/// with nothing pending closes a transition committed in an earlier pass
/// (announcing STARTING resp. SHUTTING_DOWN): the passes in between announced
/// nothing and reported no fault, came before that commit's deadline, and
/// read each expected confirmer (Cockpit, TelemetryBattery, HighPower)
/// reporting the final state. A command is thus never answered directly with
/// a final state.
pub proof fn lemma_final_state_only_after_confirmed_commit(v: OrchestratorView, its: Seq<Iteration>, j: int)
    requires
        v.wf(),
        v.pending is None,
        0 <= j < its.len(),
        forall|i: int| 0 <= i < its.len() ==> (#[trigger] its[i]).now_ms <= u64::MAX - CONFIRMATION_TIMEOUT_MS,
        outcome_at(v, its, j as nat).announced.len() > 0,
        outcome_at(v, its, j as nat).announced[0] == state::STARTED || outcome_at(v, its, j as nat).announced[0]
            == state::IDLE,
    ensures
        exists|c: int|
            0 <= c < j && {
                let s = outcome_at(v, its, j as nat).announced[0];
                &&& (#[trigger] outcome_at(v, its, c as nat)).announced == seq![
                    if s == state::STARTED {
                        state::STARTING
                    } else {
                        state::SHUTTING_DOWN
                    },
                ]
                &&& forall|i: int| c < i < j ==> is_quiet(#[trigger] outcome_at(v, its, i as nat))
                &&& forall|i: int|
                    c <= i < j ==> is_retired_source(#[trigger] its[i].event) || its[i].now_ms < its[c].now_ms
                        + CONFIRMATION_TIMEOUT_MS
                &&& all_confirmed(its.subrange(c + 1, j + 1), expected_confirmers(), s)
            },
{
    lemma_pending_from_last_commit(v, its, j as nat);
    let st = state_at(v, its, j as nat);
    let o = outcome_at(v, its, j as nat);
    if st.pending is None {
        lemma_step_while_idle(st, its[j]);
        assert(false);
    }
    let c = last_commit(v, its, j as nat);
    let w = state_at(v, its, (c + 1) as nat);
    lemma_step_while_pending(w, st, its.subrange(c + 1, j), its[j]);
    assert(its.subrange(c + 1, j).push(its[j]) =~= its.subrange(c + 1, j + 1));
    let s = o.announced[0];
    assert(all_confirmed(its.subrange(c + 1, j + 1), expected_confirmers(), s));
    assert(outcome_at(v, its, c as nat).announced == seq![
        if s == state::STARTED {
            state::STARTING
        } else {
            state::SHUTTING_DOWN
        },
    ]);
    assert(forall|i: int|
        c <= i < j ==> is_retired_source(#[trigger] its[i].event) || its[i].now_ms < its[c].now_ms
            + CONFIRMATION_TIMEOUT_MS) by {
        assert forall|i: int| c <= i < j implies is_retired_source(#[trigger] its[i].event) || its[i].now_ms
            < its[c].now_ms + CONFIRMATION_TIMEOUT_MS by {
            if i > c {
                assert(is_quiet(outcome_at(v, its, i as nat)));
            }
        }
    }
}

} // verus!
