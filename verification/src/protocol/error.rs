//! The DriverInterface PCB's own `ErrorType` codes, following the 0x{PCB}{seq}
//! convention (PCB 5).

use vstd::prelude::*;

verus! {

pub const SYSTEM_FAULT: u16 = 0x5000;

pub const CAN_FAULT: u16 = 0x5001;

} // verus!
