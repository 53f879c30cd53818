//! Raw values of the `Command` signal, shared by every PCB.

use vstd::prelude::*;

verus! {

pub const START: u8 = 0;

pub const SHUTDOWN: u8 = 1;

pub const FORCE_SHUTDOWN: u8 = 2;

} // verus!
