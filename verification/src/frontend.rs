//! Log lines that the dashboard frontend sends back over its WebSocket.

use vstd::prelude::*;

verus! {

/// The string fields of a message from the frontend: each is the field's value
/// when the message has that field and it is a string.
#[derive(Debug)]
pub struct FrontendMessage {
    /// The `type` field.
    pub kind: Option<String>,
    pub level: Option<String>,
    pub message: Option<String>,
}

/// A log line to record on the frontend's behalf.
#[derive(Debug)]
pub struct FrontendLog {
    pub level: String,
    pub message: String,
}

/// The log line a frontend message asks for: only messages of type `"log"`
/// are logged, at their level (`"info"` when absent) with their message (empty
/// when absent).
pub fn frontend_log(msg: &FrontendMessage) -> (r: Option<FrontendLog>)
    ensures
        r is Some <==> (msg.kind matches Some(k) && k@ == "log"@),
        r matches Some(l) ==> {
            &&& l.level@ == (match msg.level {
                Some(s) => s@,
                None => "info"@,
            })
            &&& l.message@ == (match msg.message {
                Some(s) => s@,
                None => ""@,
            })
        },
{
    let log_word = String::from_str("log");
    let is_log = match &msg.kind {
        Some(k) => k.eq(&log_word),
        None => false,
    };
    if !is_log {
        return None;
    }
    let level = match &msg.level {
        Some(l) => l.clone(),
        None => String::from_str("info"),
    };
    let message = match &msg.message {
        Some(m) => m.clone(),
        None => String::from_str(""),
    };
    Some(FrontendLog { level, message })
}

} // verus!
