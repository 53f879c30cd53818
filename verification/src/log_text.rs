//! The text of the log lines about CAN traffic and about missing
//! confirmations.

use vstd::prelude::*;

use crate::categorize::CanRxEvent;
use crate::protocol::Module;
use crate::receiver::CONFIRMATION_TIMEOUT_MS;

verus! {

/// The digit of value `d` (below 16), upper-case.
pub open spec fn digit_char(d: nat) -> char {
    if d == 0 {
        '0'
    } else if d == 1 {
        '1'
    } else if d == 2 {
        '2'
    } else if d == 3 {
        '3'
    } else if d == 4 {
        '4'
    } else if d == 5 {
        '5'
    } else if d == 6 {
        '6'
    } else if d == 7 {
        '7'
    } else if d == 8 {
        '8'
    } else if d == 9 {
        '9'
    } else if d == 10 {
        'A'
    } else if d == 11 {
        'B'
    } else if d == 12 {
        'C'
    } else if d == 13 {
        'D'
    } else if d == 14 {
        'E'
    } else {
        'F'
    }
}

/// `x` written in base `base`, most significant digit first, without leading
/// zeros (`0` is written `0`).
pub open spec fn radix_text_spec(x: nat, base: nat) -> Seq<char>
    decreases x,
{
    if base < 2 || x < base {
        seq![digit_char(x)]
    } else {
        proof {
            assert(x / base < x) by (nonlinear_arith)
                requires
                    base >= 2,
                    x >= base,
            ;
        }
        radix_text_spec(x / base, base) + seq![digit_char(x % base)]
    }
}

fn digit_text(d: u64) -> (s: &'static str)
    requires
        d < 16,
    ensures
        s@ == seq![digit_char(d as nat)],
{
    proof {
        reveal_strlit("0");
        reveal_strlit("1");
        reveal_strlit("2");
        reveal_strlit("3");
        reveal_strlit("4");
        reveal_strlit("5");
        reveal_strlit("6");
        reveal_strlit("7");
        reveal_strlit("8");
        reveal_strlit("9");
        reveal_strlit("A");
        reveal_strlit("B");
        reveal_strlit("C");
        reveal_strlit("D");
        reveal_strlit("E");
        reveal_strlit("F");
    }
    match d {
        0 => "0",
        1 => "1",
        2 => "2",
        3 => "3",
        4 => "4",
        5 => "5",
        6 => "6",
        7 => "7",
        8 => "8",
        9 => "9",
        10 => "A",
        11 => "B",
        12 => "C",
        13 => "D",
        14 => "E",
        _ => "F",
    }
}

/// `x` written in base `base` (2 to 16), as `{:X}` writes it in base 16 and
/// `{}` in base 10.
pub fn radix_text(x: u64, base: u64) -> (s: String)
    requires
        2 <= base <= 16,
    ensures
        s@ == radix_text_spec(x as nat, base as nat),
    decreases x,
{
    if x < base {
        String::from_str(digit_text(x))
    } else {
        assert(x / base < x) by (nonlinear_arith)
            requires
                base >= 2,
                x >= base,
        ;
        let s = radix_text(x / base, base);
        s.concat(digit_text(x % base))
    }
}

/// The name a module is logged under.
pub open spec fn module_name_spec(m: Module) -> Seq<char> {
    match m {
        Module::Broadcast => "Broadcast"@,
        Module::Cockpit => "Cockpit"@,
        Module::Hydrogen => "Hydrogen"@,
        Module::TelemetryBattery => "TelemetryBattery"@,
        Module::HighPower => "HighPower"@,
        Module::DriverInterface => "DriverInterface"@,
    }
}

/// The name a module is logged under.
pub fn module_name(m: Module) -> (s: &'static str)
    ensures
        s@ == module_name_spec(m),
{
    match m {
        Module::Broadcast => "Broadcast",
        Module::Cockpit => "Cockpit",
        Module::Hydrogen => "Hydrogen",
        Module::TelemetryBattery => "TelemetryBattery",
        Module::HighPower => "HighPower",
        Module::DriverInterface => "DriverInterface",
    }
}

/// `x` in upper-case hexadecimal.
pub open spec fn hex(x: nat) -> Seq<char> {
    radix_text_spec(x, 16)
}

/// The log text of a received event.
pub open spec fn rx_event_text(e: CanRxEvent) -> Seq<char> {
    match e {
        CanRxEvent::Error { source, critical, code } => "CAN "@ + (if critical {
            "ERROR"@
        } else {
            "warning"@
        }) + " from "@ + module_name_spec(source) + ": code=0x"@ + hex(code as nat),
        CanRxEvent::ProcedureStatus { source, status_raw, kind_raw } => "CAN procedure status from "@
            + module_name_spec(source) + ": status=0x"@ + hex(status_raw as nat) + " kind=0x"@ + hex(
            kind_raw as nat,
        ),
        CanRxEvent::ProcedureState { source, state_raw } => "CAN state from "@ + module_name_spec(source)
            + ": state=0x"@ + hex(state_raw as nat),
        CanRxEvent::ProcedureCommand { source, target, command_raw } => "CAN command from "@
            + module_name_spec(source) + " to "@ + module_name_spec(target) + ": command=0x"@ + hex(
            command_raw as nat,
        ),
        CanRxEvent::Data { source } => "CAN data frame from "@ + module_name_spec(source),
    }
}

/// The log level of a received event: only a critical report is an error.
pub open spec fn rx_event_level(e: CanRxEvent) -> Seq<char> {
    if e matches CanRxEvent::Error { critical: true, .. } {
        "error"@
    } else {
        "info"@
    }
}

/// The log level and text of a received event.
pub fn rx_event_log(event: &CanRxEvent) -> (r: (&'static str, String))
    ensures
        r.0@ == rx_event_level(*event),
        r.1@ == rx_event_text(*event),
{
    match *event {
        CanRxEvent::Error { source, critical, code } => {
            let s = String::from_str("CAN ");
            let s = s.concat(if critical { "ERROR" } else { "warning" });
            let s = s.concat(" from ");
            let s = s.concat(module_name(source));
            let s = s.concat(": code=0x");
            let h = radix_text(code as u64, 16);
            let s = s.concat(h.as_str());
            (if critical { "error" } else { "info" }, s)
        },
        CanRxEvent::ProcedureStatus { source, status_raw, kind_raw } => {
            let s = String::from_str("CAN procedure status from ");
            let s = s.concat(module_name(source));
            let s = s.concat(": status=0x");
            let h = radix_text(status_raw as u64, 16);
            let s = s.concat(h.as_str());
            let s = s.concat(" kind=0x");
            let h = radix_text(kind_raw as u64, 16);
            let s = s.concat(h.as_str());
            ("info", s)
        },
        CanRxEvent::ProcedureState { source, state_raw } => {
            let s = String::from_str("CAN state from ");
            let s = s.concat(module_name(source));
            let s = s.concat(": state=0x");
            let h = radix_text(state_raw as u64, 16);
            let s = s.concat(h.as_str());
            ("info", s)
        },
        CanRxEvent::ProcedureCommand { source, target, command_raw } => {
            let s = String::from_str("CAN command from ");
            let s = s.concat(module_name(source));
            let s = s.concat(" to ");
            let s = s.concat(module_name(target));
            let s = s.concat(": command=0x");
            let h = radix_text(command_raw as u64, 16);
            let s = s.concat(h.as_str());
            ("info", s)
        },
        CanRxEvent::Data { source } => {
            let s = String::from_str("CAN data frame from ");
            let s = s.concat(module_name(source));
            ("info", s)
        },
    }
}

/// The log text for a PCB that did not confirm a state change in time.
pub open spec fn missing_confirmation_text_spec(m: Module, expected_state: u8) -> Seq<char> {
    module_name_spec(m) + " did not confirm state change to 0x"@ + hex(expected_state as nat) + " within "@
        + radix_text_spec(CONFIRMATION_TIMEOUT_MS as nat, 10) + "ms"@
}

/// The log text for a PCB that did not confirm a state change in time.
pub fn missing_confirmation_text(m: Module, expected_state: u8) -> (s: String)
    ensures
        s@ == missing_confirmation_text_spec(m, expected_state),
{
    let s = String::from_str(module_name(m));
    let s = s.concat(" did not confirm state change to 0x");
    let h = radix_text(expected_state as u64, 16);
    let s = s.concat(h.as_str());
    let s = s.concat(" within ");
    let d = radix_text(CONFIRMATION_TIMEOUT_MS, 10);
    let s = s.concat(d.as_str());
    s.concat("ms")
}

/// An event is logged as an error exactly when it is a critical report;
/// every other event (warnings, procedure status, state reports, commands,
/// data) is logged as information.
pub proof fn lemma_only_critical_reports_are_errors(e: CanRxEvent)
    ensures
        rx_event_level(e) == "error"@ <==> (e matches CanRxEvent::Error { critical, .. } && critical),
        rx_event_level(e) != "error"@ ==> rx_event_level(e) == "info"@,
{
    reveal_strlit("error");
    reveal_strlit("info");
    assert("error"@.len() != "info"@.len());
}

} // verus!
