//! Decision logic of the boat's DriverInterface PCB server: the CAN protocol
//! model, frame classification, the start/shutdown orchestrator, the dashboard's
//! alert panel and the log-upload policy.

pub mod protocol;
pub mod dbc;
pub mod categorize;
pub mod send;
pub mod dashboard_state;
pub mod receiver;
pub mod handshake;
pub mod log_text;
pub mod uploader;
pub mod logs;
pub mod frontend;
