use oxidemu::bus::{Bus, DeviceType};
use oxidemu::errors::{ErrorKind, ErrorTopic};
use oxidemu::ram::Memory;

#[test]
fn read_and_write_bus() {
    let mut bus = Bus::new();
    let memory = Memory::new(100);
    bus.add_dev(DeviceType::Memory, memory);
    let res = bus.write(DeviceType::Memory, 12, 42u8);
    assert!(res.is_ok());
    assert_eq!(bus.read(&DeviceType::Memory, 12), Ok(42));
}

#[test]
fn bus_without_device_reports_it() {
    let mut bus = Bus::new();
    let e = bus.read(&DeviceType::Memory, 0).unwrap_err();
    assert_eq!(e.kind, ErrorKind::DeviceNotFound);
    let e = bus.write(DeviceType::Memory, 0, 1).unwrap_err();
    assert_eq!(e.kind, ErrorKind::DeviceNotFound);
    assert_eq!(e.topic, ErrorTopic::RamWrite);
}

#[test]
fn bus_passes_device_errors_through() {
    let mut bus = Bus::new();
    bus.add_dev(DeviceType::Memory, Memory::new(10));
    let e = bus.write(DeviceType::Memory, 10, 1).unwrap_err();
    assert_eq!(e.kind, ErrorKind::OutOfBounds { addr: 10, max: 10, size: 1 });
    bus.add_dev(DeviceType::Memory, Memory::new(20));
    assert_eq!(bus.read(&DeviceType::Memory, 15), Ok(0));
    assert_eq!(DeviceType::Memory.as_str(), "Memory");
}
