//! The bus-facing peripheral capability: an addressable hardware block
//! exposing a register window to the emulated bus.

pub mod usart;

use vstd::prelude::*;

use crate::system::System;

verus! {

/// A memory-mapped peripheral, addressed by a 32-bit register offset
/// relative to its bus window.
///
/// The bus dispatcher calls `read` and `write` uniformly, whatever the
/// peripheral kind. As with [`crate::ext_devices::ExtDevice`], each exec
/// method's behaviour is pinned by spec functions that an implementer gives
/// a body, so a caller that knows the concrete peripheral type sees its
/// exact register semantics.
pub trait Peripheral: Sized {
    /// Well-formedness of the peripheral's state; established at
    /// construction and preserved by every register access.
    spec fn inv(&self) -> bool;

    /// What `read` returns and how it changes the peripheral's state.
    spec fn read_post(pre: Self, post: Self, offset: u32, r: u32) -> bool;

    /// How `write` changes the peripheral's state.
    spec fn write_post(pre: Self, post: Self, offset: u32, value: u32) -> bool;

    /// One bus read of the register at `offset`.
    fn read(&mut self, sys: &System, offset: u32) -> (r: u32)
        requires
            old(self).inv(),
        ensures
            final(self).inv(),
            Self::read_post(*old(self), *final(self), offset, r),
    ;

    /// One bus write of `value` to the register at `offset`.
    fn write(&mut self, sys: &System, offset: u32, value: u32)
        requires
            old(self).inv(),
        ensures
            final(self).inv(),
            Self::write_post(*old(self), *final(self), offset, value),
    ;
}

} // verus!
