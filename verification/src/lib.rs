//! Emulation of a memory-mapped serial (USART) peripheral and the
//! external-device bridge through which byte-oriented simulated hardware
//! attaches to it.
//!
//! The crate has three layers:
//! - [`system`]: the execution-context handle passed into every register
//!   access.
//! - [`ext_devices`]: the external-device capability ([`ext_devices::ExtDevice`])
//!   and a concrete line-capture probe
//!   ([`ext_devices::usart_probe::UsartProbe`]) that accumulates written bytes
//!   and emits one record per newline-terminated line.
//! - [`peripherals`]: the bus-facing peripheral capability
//!   ([`peripherals::Peripheral`]) and the serial register emulator
//!   ([`peripherals::usart::Usart`]) with its status and data registers.

pub mod ext_devices;
pub mod peripherals;
pub mod system;
