use vstd::prelude::*;

verus! {

/// The kind of device an input event came from, with the device's own number.
#[derive(Debug, Clone, Copy, PartialEq, Eq, Structural)]
pub enum InputDevice {
    Keyboard(u32),
    Gamepad(u32),
}

/// One input event: a key of a device, pressed or released. For the machine the key
/// code is a logical key index.
#[derive(Debug, Clone, Copy, PartialEq, Eq, Structural)]
pub struct InputKey {
    pub device: InputDevice,
    pub key_code: u32,
    pub pressed: bool,
}

impl InputKey {
    pub fn new(device: InputDevice, key_code: u32, pressed: bool) -> (r: Self)
        ensures
            r == (InputKey { device, key_code, pressed }),
    {
        InputKey { device, key_code, pressed }
    }
}

/// Something that takes input events.
pub trait InputProcessor: Sized {
    /// What the receiver keeps between events.
    spec fn input_ready(&self) -> bool;

    /// Whether taking `key` takes the receiver from `self` to `after`.
    spec fn key_post(&self, after: Self, key: InputKey) -> bool;

    fn process_input(&mut self, key: InputKey)
        requires
            old(self).input_ready(),
        ensures
            final(self).input_ready(),
            old(self).key_post(*final(self), key),
    ;
}

} // verus!
