//! Raw values of the `CurrentState` signal. The DriverInterface PCB's own state
//! doubles as the state of the whole boat.

use vstd::prelude::*;

verus! {

pub const IDLE: u8 = 0;

pub const STARTING: u8 = 1;

pub const STARTED: u8 = 2;

pub const SHUTTING_DOWN: u8 = 3;

} // verus!
