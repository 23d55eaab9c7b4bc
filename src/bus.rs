use vstd::prelude::*;

use crate::errors::{EmulError, ErrorKind, ErrorTopic};
use crate::ram::{read_byte_spec, read_word_spec, write_byte_spec, Ram};

verus! {

/// The key a device is registered under.
#[derive(Debug, Clone, Copy, PartialEq, Eq, Hash, Structural)]
pub enum DeviceType {
    Memory,
}

impl DeviceType {
    /// The device's name.
    pub fn as_str(&self) -> &'static str {
        match self {
            DeviceType::Memory => "Memory",
        }
    }
}

/// A device with a name, for diagnostics.
pub trait Debuggable {
    fn get_name(&self) -> &'static str;
}

/// A device whose bytes can be read.
pub trait Readable: Debuggable {
    /// The bytes the device holds.
    spec fn contents(&self) -> Seq<u8>;

    fn read_byte(&self, addr: usize) -> (r: Result<u8, EmulError>)
        ensures
            r == read_byte_spec(self.contents(), addr),
    ;

    fn read_word(&self, addr: usize) -> (r: Result<u16, EmulError>)
        ensures
            r == read_word_spec(self.contents(), addr),
    ;
}

/// A device whose bytes can be written.
pub trait Writable: Readable {
    fn write_byte(&mut self, addr: usize, value: u8) -> (r: Result<(), EmulError>)
        ensures
            match write_byte_spec(old(self).contents(), addr, value) {
                Ok(m) => r == Ok::<(), EmulError>(()) && final(self).contents() == m,
                Err(e) => r == Err::<(), EmulError>(e) && final(self).contents() == old(self).contents(),
            },
    ;
}

/// A device that can be both read and written.
pub trait Rw: Readable + Writable {
}

impl Debuggable for Ram {
    fn get_name(&self) -> &'static str {
        "RAM"
    }
}

impl Readable for Ram {
    open spec fn contents(&self) -> Seq<u8> {
        self@
    }

    fn read_byte(&self, addr: usize) -> (r: Result<u8, EmulError>) {
        Ram::read_byte(self, addr)
    }

    fn read_word(&self, addr: usize) -> (r: Result<u16, EmulError>) {
        Ram::read_word(self, addr)
    }
}

impl Writable for Ram {
    fn write_byte(&mut self, addr: usize, value: u8) -> (r: Result<(), EmulError>) {
        Ram::write_byte(self, addr, value)
    }
}

impl Rw for Ram {
}

/// Routes reads and writes to the device registered under a key. The bus does not look
/// at addresses: each device checks its own.
///
/// The set of keys is the closed enum `DeviceType`, so the registry is a table with one
/// slot per key (a field per variant) rather than a map: a lookup is a `match`, and
/// registering a device under a key replaces the one in its slot.
pub struct Bus {
    memory: Option<Ram>,
}

/// The error for a key with no device.
pub open spec fn device_not_found(topic: ErrorTopic) -> EmulError {
    EmulError { kind: ErrorKind::DeviceNotFound, topic }
}

impl Bus {
    /// The contents of the device under `d_type`, if one is registered.
    pub closed spec fn device(&self, d_type: DeviceType) -> Option<Seq<u8>> {
        match d_type {
            DeviceType::Memory => match self.memory {
                Some(m) => Some(m@),
                None => None,
            },
        }
    }

    /// A bus with no devices.
    pub fn new() -> (r: Self)
        ensures
            forall|t: DeviceType| r.device(t) is None,
    {
        Bus { memory: None }
    }

    /// Registers `dev` under `d_type`, replacing any device there.
    pub fn add_dev(&mut self, d_type: DeviceType, dev: Ram)
        ensures
            final(self).device(d_type) == Some(dev@),
            forall|t: DeviceType| t != d_type ==> final(self).device(t) == old(self).device(t),
    {
        match d_type {
            DeviceType::Memory => self.memory = Some(dev),
        }
    }

    /// Reads the byte at `addr` of the device under `d_type`.
    pub fn read(&self, d_type: &DeviceType, addr: usize) -> (r: Result<u8, EmulError>)
        ensures
            match self.device(*d_type) {
                Some(m) => r == read_byte_spec(m, addr),
                None => r == Err::<u8, EmulError>(device_not_found(ErrorTopic::RamRead)),
            },
    {
        match d_type {
            DeviceType::Memory => match &self.memory {
                Some(m) => m.read_byte(addr),
                None => Err(EmulError::new(ErrorKind::DeviceNotFound, ErrorTopic::RamRead)),
            },
        }
    }

    /// Writes the byte at `addr` of the device under `d_type`.
    pub fn write(&mut self, d_type: DeviceType, addr: usize, value: u8) -> (r: Result<(), EmulError>)
        ensures
            forall|t: DeviceType| t != d_type ==> final(self).device(t) == old(self).device(t),
            match old(self).device(d_type) {
                Some(m) => match write_byte_spec(m, addr, value) {
                    Ok(m2) => r == Ok::<(), EmulError>(()) && final(self).device(d_type) == Some(m2),
                    Err(e) => r == Err::<(), EmulError>(e) && final(self).device(d_type) == Some(m),
                },
                None => r == Err::<(), EmulError>(device_not_found(ErrorTopic::RamWrite)) && final(self).device(d_type) is None,
            },
    {
        match d_type {
            DeviceType::Memory => match &mut self.memory {
                Some(m) => m.write_byte(addr, value),
                None => Err(EmulError::new(ErrorKind::DeviceNotFound, ErrorTopic::RamWrite)),
            },
        }
    }
}

} // verus!
