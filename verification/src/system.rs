//! The system-wide execution context handed to every register access.

use vstd::prelude::*;

verus! {

/// Handle on the surrounding emulator (clock, interrupt lines, other
/// peripherals). The serial peripheral and the line-capture probe take it on
/// every register access but do not yet consult it, so it carries no state
/// here.
pub struct System {}

impl System {
    /// A fresh execution context.
    pub fn new() -> System {
        System {}
    }
}

} // verus!
