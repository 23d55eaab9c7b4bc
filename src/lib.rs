//! A CHIP-8 emulation engine: a bounds-checked byte store, a pixel buffer,
//! a device bus, the fetch-decode-execute interpreter and a manager that
//! drives it, each with a machine-checked contract.

pub mod errors;
pub mod message;
pub mod ram;
pub mod vram;
pub mod bus;
pub mod machine;
pub mod interpreter;
pub mod input;
pub mod emulator;
pub mod chip8;
