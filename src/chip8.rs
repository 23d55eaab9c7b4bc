use vstd::prelude::*;

use crate::emulator::{CycleResult, Emulator};
use crate::errors::{EmulError, ErrorKind, ErrorTopic};
use crate::input::{InputKey, InputProcessor};
use crate::interpreter::Interpreter;
use crate::machine::{
    cycle_spec, decode_spec, loaded, power_on, state_wf, touches_video, MachineState, MEMORY_SIZE, START_ADDRESS, VIDEO_HEIGHT,
    VIDEO_WIDTH,
};
use crate::vram::{lemma_plane8_len, plane8};

verus! {

/// The nominal instruction rate of the machine.
pub const CYCLES_PER_SECOND: u64 = 500;

/// Relies on `rand::thread_rng` and `Rng::gen_range` over the non-empty range `0..=255`,
/// which returns a byte drawn from it; nothing is promised about which.
#[verifier::external_body]
fn random_byte() -> (r: u8) {
    rand::Rng::gen_range(&mut rand::thread_rng(), 0..=255u8)
}

/// A CHIP-8 machine: the interpreter, whether a program is loaded and running, the fault
/// that halted it if one did, and the number of instructions run since the load.
///
/// The delay and sound timers tick once per executed instruction, so their pace follows
/// the instruction rate that the host drives.
pub struct Chip8 {
    core: Interpreter,
    active: bool,
    fault: Option<EmulError>,
    cnt: u64,
}

/// The error that a machine that is not running reports.
pub open spec fn halted_error(fault: Option<EmulError>) -> EmulError {
    match fault {
        Some(e) => e,
        None => EmulError { kind: ErrorKind::NotInitialized, topic: ErrorTopic::Emulator },
    }
}

/// The count after one more instruction, stopping at the largest `u64`.
pub open spec fn count_after(cnt: u64) -> u64 {
    if cnt < u64::MAX { (cnt + 1) as u64 } else { cnt }
}

impl Chip8 {
    pub closed spec fn wf(&self) -> bool {
        self.core.wf()
    }

    pub closed spec fn state(&self) -> MachineState {
        self.core@
    }

    pub closed spec fn is_active(&self) -> bool {
        self.active
    }

    pub closed spec fn spec_fault(&self) -> Option<EmulError> {
        self.fault
    }

    pub closed spec fn spec_count(&self) -> u64 {
        self.cnt
    }

    /// What one cycle with the random byte `rnd` does to `before`, giving `after` and `r`:
    /// a machine that is not running reports why and stays as it is; a fault halts the
    /// machine and is kept; otherwise the instruction runs and is counted.
    pub open spec fn cycle_outcome(before: Chip8, after: Chip8, rnd: u8, r: Result<CycleResult, EmulError>) -> bool {
        if !before.is_active() {
            r == Err::<CycleResult, EmulError>(halted_error(before.spec_fault())) && after == before
        } else {
            match cycle_spec(before.state(), rnd) {
                Ok(t) => {
                    &&& after.state() == t
                    &&& after.is_active()
                    &&& after.spec_fault() == before.spec_fault()
                    &&& after.spec_count() == count_after(before.spec_count())
                    &&& r == Ok::<CycleResult, EmulError>(CycleResult {
                        video_buff_changed: touches_video(decode_spec(t.opcode)),
                        total_cycle_count: count_after(before.spec_count()) as u128,
                        last_cycle_count: 1,
                    })
                },
                Err(e) => {
                    &&& after.state() == before.state()
                    &&& !after.is_active()
                    &&& after.spec_fault() == Some(e)
                    &&& after.spec_count() == before.spec_count()
                    &&& r == Err::<CycleResult, EmulError>(e)
                },
            }
        }
    }

    /// What loading `rom` does: a program that fits resets the machine to power-on with the
    /// program at the load address, ready to run; one that does not fit is refused and the
    /// machine stays as it was.
    pub open spec fn load_outcome(before: Chip8, after: Chip8, rom: Seq<u8>, r: Result<(), EmulError>) -> bool {
        &&& rom.len() <= MEMORY_SIZE - START_ADDRESS ==> {
            &&& r is Ok
            &&& after.state() == loaded(rom)
            &&& after.is_active()
            &&& after.spec_fault() is None
            &&& after.spec_count() == 0
        }
        &&& rom.len() > MEMORY_SIZE - START_ADDRESS ==> r == Err::<(), EmulError>(EmulError {
            kind: ErrorKind::OutOfBounds { addr: START_ADDRESS, max: MEMORY_SIZE, size: rom.len() as usize },
            topic: ErrorTopic::RamWrite,
        }) && after == before
    }

    /// What pressing or releasing logical key `key` does: the keypad entry is set when the
    /// key is one of the sixteen, and nothing else changes.
    pub open spec fn key_outcome(before: Chip8, after: Chip8, key: u32, pressed: bool) -> bool {
        &&& after.state() == if key < 16 {
            MachineState { keypad: before.state().keypad.update(key as int, if pressed { 1u8 } else { 0u8 }), ..before.state() }
        } else {
            before.state()
        }
        &&& after.is_active() == before.is_active()
        &&& after.spec_fault() == before.spec_fault()
        &&& after.spec_count() == before.spec_count()
    }

    /// The sizes of a well-formed machine: memory, screen, registers, stack and keypad.
    pub proof fn lemma_wf_sizes(&self)
        requires
            self.wf(),
        ensures
            state_wf(self.state()),
            plane8(self.state().video).len() == 4 * VIDEO_WIDTH * VIDEO_HEIGHT,
    {
        self.core.lemma_wf_sizes();
        lemma_plane8_len(self.state().video);
    }

    /// A machine at power-on with no program: it does not run until one is loaded.
    pub fn new() -> (r: Self)
        ensures
            r.wf(),
            r.state() == power_on(),
            !r.is_active(),
            r.spec_fault() is None,
            r.spec_count() == 0,
    {
        Chip8 { core: Interpreter::new(), active: false, fault: None, cnt: 0 }
    }

    /// Resets the machine and loads `rom` at the load address, ready to run. A program
    /// that does not fit is refused and the machine stays as it was.
    pub fn load_rom(&mut self, rom: &Vec<u8>) -> (r: Result<(), EmulError>)
        requires
            old(self).wf(),
        ensures
            final(self).wf(),
            Self::load_outcome(*old(self), *final(self), rom@, r),
    {
        match self.core.load(rom) {
            Ok(()) => {
                self.active = true;
                self.fault = None;
                self.cnt = 0;
                Ok(())
            },
            Err(e) => Err(e),
        }
    }

    /// One cycle, with `rnd` as the byte that an RND instruction draws.
    pub fn run_cycle(&mut self, rnd: u8) -> (r: Result<CycleResult, EmulError>)
        requires
            old(self).wf(),
        ensures
            final(self).wf(),
            Self::cycle_outcome(*old(self), *final(self), rnd, r),
    {
        if !self.active {
            return match self.fault {
                Some(e) => Err(e),
                None => Err(EmulError::new(ErrorKind::NotInitialized, ErrorTopic::Emulator)),
            };
        }
        match self.core.step(rnd) {
            Ok(changed) => {
                if self.cnt < u64::MAX {
                    self.cnt = self.cnt + 1;
                }
                Ok(CycleResult { video_buff_changed: changed, total_cycle_count: self.cnt as u128, last_cycle_count: 1 })
            },
            Err(e) => {
                self.active = false;
                self.fault = Some(e);
                Err(e)
            },
        }
    }

    /// One cycle; an RND instruction gets a freshly drawn random byte.
    pub fn do_cycle(&mut self) -> (r: Result<CycleResult, EmulError>)
        requires
            old(self).wf(),
        ensures
            final(self).wf(),
            exists|rnd: u8| Self::cycle_outcome(*old(self), *final(self), rnd, r),
    {
        let rnd = random_byte();
        self.run_cycle(rnd)
    }

    /// Presses or releases logical key `key` (0 to 15); other keys are ignored.
    pub fn set_key(&mut self, key: u32, pressed: bool)
        requires
            old(self).wf(),
        ensures
            final(self).wf(),
            Self::key_outcome(*old(self), *final(self), key, pressed),
    {
        self.core.set_key(key, pressed);
    }

    /// The interpreter, to inspect.
    pub fn interpreter(&self) -> (r: &Interpreter)
        ensures
            r@ == self.state(),
            self.wf() ==> r.wf(),
    {
        &self.core
    }

    /// The interpreter, to drive one instruction at a time.
    pub fn interpreter_mut(&mut self) -> (r: &mut Interpreter)
        requires
            old(self).wf(),
        ensures
            r@ == old(self).state(),
            r.wf(),
            final(r).wf() ==> final(self).wf(),
            final(self).state() == final(r)@,
            final(self).is_active() == old(self).is_active(),
            final(self).spec_fault() == old(self).spec_fault(),
            final(self).spec_count() == old(self).spec_count(),
    {
        &mut self.core
    }
}

impl Emulator for Chip8 {
    open spec fn inv(&self) -> bool {
        self.wf()
    }

    open spec fn video_spec(&self) -> Seq<u8> {
        plane8(self.state().video)
    }

    open spec fn resolution_spec(&self) -> (u32, u32) {
        (VIDEO_WIDTH as u32, VIDEO_HEIGHT as u32)
    }

    open spec fn cycles_in_sec_spec(&self) -> u64 {
        CYCLES_PER_SECOND
    }

    open spec fn cycle_post(&self, after: Self, r: Result<CycleResult, EmulError>) -> bool {
        exists|rnd: u8| Chip8::cycle_outcome(*self, after, rnd, r)
    }

    open spec fn load_post(&self, after: Self, rom: Seq<u8>, r: Result<(), EmulError>) -> bool {
        Chip8::load_outcome(*self, after, rom, r)
    }

    open spec fn input_post(&self, after: Self, key: u32, pressed: bool) -> bool {
        Chip8::key_outcome(*self, after, key, pressed)
    }

    fn video_buffer(&self) -> (r: Vec<u8>) {
        self.core.video_buffer()
    }

    fn cycle(&mut self) -> (r: Result<CycleResult, EmulError>) {
        self.do_cycle()
    }

    fn process_input(&mut self, emul_key: u32, pressed: bool) {
        self.set_key(emul_key, pressed);
    }

    fn load_rom(&mut self, rom: &Vec<u8>) -> (r: Result<(), EmulError>) {
        Chip8::load_rom(self, rom)
    }

    fn resolution(&self) -> (r: [u32; 2]) {
        let r = [VIDEO_WIDTH as u32, VIDEO_HEIGHT as u32];
        assert(r@ =~= seq![VIDEO_WIDTH as u32, VIDEO_HEIGHT as u32]);
        r
    }

    fn cycles_in_sec(&self) -> (r: u64) {
        CYCLES_PER_SECOND
    }
}

impl InputProcessor for Chip8 {
    open spec fn input_ready(&self) -> bool {
        self.wf()
    }

    open spec fn key_post(&self, after: Self, key: InputKey) -> bool {
        Chip8::key_outcome(*self, after, key.key_code, key.pressed)
    }

    fn process_input(&mut self, key: InputKey) {
        self.set_key(key.key_code, key.pressed);
    }
}

} // verus!
