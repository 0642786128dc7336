//! The serial (USART) register emulator: a two-register peripheral that
//! forwards data-register traffic to an attached external device.

use vstd::prelude::*;

use crate::ext_devices::ExtDevice;
use crate::peripherals::Peripheral;
use crate::system::System;

verus! {

/// Offset of the read-only status register within the bus window.
pub const STATUS_OFFSET: u32 = 0x0000;

/// Offset of the data register within the bus window.
pub const DATA_OFFSET: u32 = 0x0004;

/// The constant status value: TXE (bit 7), TC (bit 6), RXNE (bit 5) and
/// IDLE (bit 4) asserted unconditionally, so polling firmware never stalls
/// waiting for readiness.
pub const STATUS_READY: u32 = 0xF0;

/// Whether a configured peripheral name designates this serial kind: it
/// begins with the literal prefix `USART`.
pub open spec fn is_usart_name(name: Seq<char>) -> bool {
    name.len() >= 5 && name.subrange(0, 5) == "USART"@
}

/// Checks, character by character, whether `name` begins with `USART`.
fn starts_with_usart(name: &str) -> (r: bool)
    ensures
        r == is_usart_name(name@),
{
    proof {
        reveal_strlit("USART");
    }
    let n: usize = name.unicode_len();
    if n < 5 {
        return false;
    }
    let r = name.get_char(0) == 'U' && name.get_char(1) == 'S' && name.get_char(2) == 'A'
        && name.get_char(3) == 'R' && name.get_char(4) == 'T';
    proof {
        if r {
            assert(name@.subrange(0, 5) =~= "USART"@);
        } else {
            if name@.subrange(0, 5) == "USART"@ {
                assert(name@[0] == "USART"@[0]);
                assert(name@[1] == "USART"@[1]);
                assert(name@[2] == "USART"@[2]);
                assert(name@[3] == "USART"@[3]);
                assert(name@[4] == "USART"@[4]);
            }
        }
    }
    r
}

/// A serial peripheral: a status register that always reports ready, and a
/// data register that passes bytes through to the attached external device,
/// if any.
///
/// The attachment is held directly: the bus dispatcher drives every access
/// serially, so exactly one agent manipulates the device during a bus cycle
/// and exclusive access needs no runtime arbitration. With no device
/// attached the data path behaves as a disconnected line: reads yield 0 and
/// writes are dropped silently; that is a normal state, not an error.
pub struct Usart<D: ExtDevice<(), u8>> {
    /// The peripheral's display name: the device's adopted identity when
    /// one is attached, else the configured name.
    pub name: String,
    /// The attached external device, if the registry found one.
    pub ext_device: Option<D>,
}

impl<D: ExtDevice<(), u8>> Usart<D> {
    /// Builds the peripheral configured as `name`, attaching `ext_device`
    /// if the registry resolved one for it.
    ///
    /// A peripheral is created exactly when `name` begins with `USART`.
    /// When a device is handed in, its `connect_peripheral` runs once and
    /// the peripheral adopts the returned display name; with none, the
    /// peripheral keeps its configured name and operates disconnected.
    /// Construction never fails for a recognized name.
    pub fn new(name: &str, ext_device: Option<D>) -> (r: Option<Usart<D>>)
        requires
            ext_device matches Some(d) ==> d.inv(),
        ensures
            r is Some <==> is_usart_name(name@),
            r matches Some(u) ==> u.inv() && match ext_device {
                Some(d) => u.ext_device matches Some(d1) && D::connect_post(d, d1, name@)
                    && u.name@ == d.display_name(name@),
                None => u.ext_device is None && u.name@ == name@,
            },
    {
        if starts_with_usart(name) {
            match ext_device {
                Some(mut d) => {
                    let adopted = d.connect_peripheral(name);
                    Some(Usart { name: adopted, ext_device: Some(d) })
                },
                None => Some(Usart { name: name.to_owned(), ext_device: None }),
            }
        } else {
            None
        }
    }
}

impl<D: ExtDevice<(), u8>> Peripheral for Usart<D> {
    /// The peripheral is well-formed when its attached device, if any, is.
    open spec fn inv(&self) -> bool {
        match self.ext_device {
            Some(d) => d.inv(),
            None => true,
        }
    }

    /// Register read semantics: the status register always reads as
    /// [`STATUS_READY`]; the data register delegates to the attached
    /// device and zero-extends the byte it returns, or reads 0 with no
    /// device attached; every other offset reads 0. Only a data-register
    /// read with a device attached can change any state, and then only the
    /// device's.
    open spec fn read_post(pre: Self, post: Self, offset: u32, r: u32) -> bool {
        if offset == STATUS_OFFSET {
            post == pre && r == STATUS_READY
        } else if offset == DATA_OFFSET {
            match (pre.ext_device, post.ext_device) {
                (Some(d0), Some(d1)) => D::read_post(d0, d1, (), r as u8) && r <= 0xFF
                    && post.name == pre.name,
                (None, None) => post == pre && r == 0,
                _ => false,
            }
        } else {
            post == pre && r == 0
        }
    }

    /// Register write semantics: a data-register write hands the low byte
    /// of `value` to the attached device, or does nothing with no device
    /// attached; a write to any other offset does nothing.
    open spec fn write_post(pre: Self, post: Self, offset: u32, value: u32) -> bool {
        if offset == DATA_OFFSET {
            match (pre.ext_device, post.ext_device) {
                (Some(d0), Some(d1)) => D::write_post(d0, d1, (), value as u8) && post.name
                    == pre.name,
                (None, None) => post == pre,
                _ => false,
            }
        } else {
            post == pre
        }
    }

    fn read(&mut self, sys: &System, offset: u32) -> (r: u32) {
        if offset == STATUS_OFFSET {
            STATUS_READY
        } else if offset == DATA_OFFSET {
            match &mut self.ext_device {
                Some(d) => {
                    let v: u8 = d.read(sys, ());
                    v as u32
                },
                None => 0,
            }
        } else {
            0
        }
    }

    fn write(&mut self, sys: &System, offset: u32, value: u32) {
        if offset == DATA_OFFSET {
            match &mut self.ext_device {
                Some(d) => {
                    d.write(sys, (), #[verifier::truncate] (value as u8));
                },
                None => {},
            }
        }
    }
}

} // verus!
