//! The external-device capability: byte-oriented simulated hardware
//! (probes, terminals, modems, loopback testers) that attaches to a
//! serial-capable peripheral's data path.

pub mod usart_probe;

use vstd::prelude::*;

use crate::system::System;

verus! {

/// A simulated endpoint attached to a peripheral's data path, polymorphic in
/// the address type `A` and the value type `V` of that path.
///
/// The capability has no error channel by design: `read` and `write` never
/// block and never fail. A device with no real read path returns a fixed
/// default instead of signalling absence.
///
/// Each exec method's behaviour is pinned by a spec function that an
/// implementer must give a body: `inv` (well-formedness), `display_name`
/// (the identity adopted at attachment), and the three transition relations
/// `connect_post`, `read_post` and `write_post`. A caller that knows the
/// concrete device type sees its exact behaviour through these.
pub trait ExtDevice<A, V>: Sized {
    /// Well-formedness of the device's state; established at construction
    /// and preserved by every operation.
    spec fn inv(&self) -> bool;

    /// The display identity the device adopts, and returns, when attached to
    /// the peripheral named `peri_name`.
    spec fn display_name(&self, peri_name: Seq<char>) -> Seq<char>;

    /// How `connect_peripheral` changes the device's state.
    spec fn connect_post(pre: Self, post: Self, peri_name: Seq<char>) -> bool;

    /// What `read` returns and how it changes the device's state.
    spec fn read_post(pre: Self, post: Self, addr: A, r: V) -> bool;

    /// How `write` changes the device's state.
    spec fn write_post(pre: Self, post: Self, addr: A, v: V) -> bool;

    /// Called exactly once, at attachment time, before any read or write:
    /// establishes the device's display identity and returns it so the
    /// caller can adopt it as its own display name. No other side effects.
    fn connect_peripheral(&mut self, peri_name: &str) -> (r: String)
        requires
            old(self).inv(),
        ensures
            final(self).inv(),
            r@ == old(self).display_name(peri_name@),
            Self::connect_post(*old(self), *final(self), peri_name@),
    ;

    /// Best-effort read of the device's data path.
    fn read(&mut self, sys: &System, addr: A) -> (r: V)
        requires
            old(self).inv(),
        ensures
            final(self).inv(),
            Self::read_post(*old(self), *final(self), addr, r),
    ;

    /// The device's observable effect of one value written to its data path,
    /// performed synchronously before returning.
    fn write(&mut self, sys: &System, addr: A, v: V)
        requires
            old(self).inv(),
        ensures
            final(self).inv(),
            Self::write_post(*old(self), *final(self), addr, v),
    ;
}

} // verus!
