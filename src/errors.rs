use vstd::prelude::*;

verus! {

/// What went wrong.
#[derive(Debug, Clone, Copy, PartialEq, Eq, Structural)]
pub enum ErrorKind {
    /// An access at `addr` of `size` bytes (or pixels) into a store that holds
    /// `max` of them.
    OutOfBounds { addr: usize, max: usize, size: usize },
    DeviceNotFound,
    RomFileNotFound,
    UnknownInstruction { opcode: u16 },
    NotInitialized,
    StackOverflow,
    StackUnderflow,
}

/// Where it went wrong.
#[derive(Debug, Clone, Copy, PartialEq, Eq, Structural)]
pub enum ErrorTopic {
    RamRead,
    RamWrite,
    VramRead,
    VramWrite,
    Emulator,
}

impl ErrorTopic {
    /// A short human-readable name of the topic.
    pub fn as_str(&self) -> (r: &'static str) {
        match self {
            ErrorTopic::RamRead => "RAM read",
            ErrorTopic::RamWrite => "RAM write",
            ErrorTopic::VramRead => "VRAM read",
            ErrorTopic::VramWrite => "VRAM write",
            ErrorTopic::Emulator => "Emulator",
        }
    }
}

/// A structured error: a kind with its parameters, and the topic it arose in.
#[derive(Debug, Clone, Copy, PartialEq, Eq, Structural)]
pub struct EmulError {
    pub kind: ErrorKind,
    pub topic: ErrorTopic,
}

impl EmulError {
    pub fn new(kind: ErrorKind, topic: ErrorTopic) -> (r: Self)
        ensures
            r == (EmulError { kind, topic }),
    {
        EmulError { kind, topic }
    }
}

/// The out-of-bounds error of an access of `size` units at `addr` into a store of `max` units.
pub open spec fn out_of_bounds(topic: ErrorTopic, addr: usize, max: usize, size: usize) -> EmulError {
    EmulError { kind: ErrorKind::OutOfBounds { addr, max, size }, topic }
}

} // verus!
