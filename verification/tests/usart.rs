//! Behaviour of the serial peripheral's register emulation, disconnected
//! and with an attached probe.

use usart_emu::ext_devices::usart_probe::{UsartProbe, UsartProbeConfig};
use usart_emu::peripherals::usart::Usart;
use usart_emu::peripherals::Peripheral;
use usart_emu::system::System;

fn probe_for(peripheral: &str) -> UsartProbe {
    let config = UsartProbeConfig {
        peripheral: peripheral.to_string(),
    };
    UsartProbe::new(config).unwrap()
}

#[test]
fn non_usart_name_yields_no_peripheral() {
    assert!(Usart::<UsartProbe>::new("UART5", None).is_none());
    assert!(Usart::<UsartProbe>::new("SPI1", None).is_none());
    assert!(Usart::<UsartProbe>::new("", None).is_none());
    assert!(Usart::new("USAR", Some(probe_for("USAR"))).is_none());
}

#[test]
fn usart_name_yields_peripheral_attached_or_not() {
    assert!(Usart::<UsartProbe>::new("USART1", None).is_some());
    assert!(Usart::new("USART1", Some(probe_for("USART1"))).is_some());
    assert!(Usart::<UsartProbe>::new("USART", None).is_some());
}

#[test]
fn attached_device_renames_the_peripheral() {
    let usart = Usart::new("USART3", Some(probe_for("USART3"))).unwrap();
    assert_eq!(usart.name, "USART3 usart-probe");
    assert_eq!(usart.ext_device.as_ref().unwrap().display(), "USART3 usart-probe");
}

#[test]
fn unattached_peripheral_keeps_its_configured_name() {
    let usart = Usart::<UsartProbe>::new("USART6", None).unwrap();
    assert_eq!(usart.name, "USART6");
    assert!(usart.ext_device.is_none());
}

#[test]
fn status_register_always_reads_ready() {
    let sys = System::new();
    let mut usart = Usart::<UsartProbe>::new("USART1", None).unwrap();
    assert_eq!(usart.read(&sys, 0x0000), 0xF0);
    assert_eq!(usart.read(&sys, 0x0000), 240);
    let mut attached = Usart::new("USART1", Some(probe_for("USART1"))).unwrap();
    assert_eq!(attached.read(&sys, 0x0000), 0xF0);
}

#[test]
fn disconnected_data_register_reads_zero_and_drops_writes() {
    let sys = System::new();
    let mut usart = Usart::<UsartProbe>::new("USART2", None).unwrap();
    assert_eq!(usart.read(&sys, 0x0004), 0);
    usart.write(&sys, 0x0004, 0x41);
    assert_eq!(usart.read(&sys, 0x0004), 0);
    assert_eq!(usart.name, "USART2");
    assert!(usart.ext_device.is_none());
}

#[test]
fn other_offsets_read_zero_and_ignore_writes() {
    let sys = System::new();
    let mut usart = Usart::new("USART1", Some(probe_for("USART1"))).unwrap();
    assert_eq!(usart.read(&sys, 0x0008), 0);
    assert_eq!(usart.read(&sys, 0xFFFF), 0);
    usart.write(&sys, 0x0000, 0x41);
    usart.write(&sys, 0x0008, 0x41);
    assert!(usart.ext_device.as_ref().unwrap().buffered().is_empty());
}

#[test]
fn data_register_write_reaches_the_probe() {
    let sys = System::new();
    let mut usart = Usart::new("USART1", Some(probe_for("USART1"))).unwrap();
    usart.write(&sys, 0x0004, 0x41);
    usart.write(&sys, 0x0004, 0x42);
    usart.write(&sys, 0x0004, 0x0A);
    let probe = usart.ext_device.as_ref().unwrap();
    assert!(probe.buffered().is_empty());
    assert_eq!(probe.emitted().len(), 1);
    assert_eq!(probe.emitted()[0], "USART1 usart-probe 'AB'");
}

#[test]
fn data_register_read_delegates_to_the_probe() {
    let sys = System::new();
    let mut usart = Usart::new("USART1", Some(probe_for("USART1"))).unwrap();
    assert_eq!(usart.read(&sys, 0x0004), 0);
}

#[test]
fn data_register_write_narrows_to_the_low_byte() {
    let sys = System::new();
    let mut usart = Usart::new("USART4", Some(probe_for("USART4"))).unwrap();
    usart.write(&sys, 0x0004, 0xFFFF_FF41);
    usart.write(&sys, 0x0004, 0x0000_0142);
    {
        let probe = usart.ext_device.as_ref().unwrap();
        assert_eq!(probe.buffered().as_slice(), b"AB");
        assert!(probe.emitted().is_empty());
    }
    usart.write(&sys, 0x0004, 0x0000_010A);
    let probe = usart.ext_device.as_ref().unwrap();
    assert!(probe.buffered().is_empty());
    assert_eq!(probe.emitted().len(), 1);
    assert_eq!(probe.emitted()[0], "USART4 usart-probe 'AB'");
}
