use vstd::prelude::*;

use crate::errors::{EmulError, ErrorKind, ErrorTopic};

verus! {

/// What one call of `cycle` did.
#[derive(Debug, Clone, Copy, PartialEq, Eq, Structural)]
pub struct CycleResult {
    /// Whether the screen may have changed.
    pub video_buff_changed: bool,
    /// The instructions run since the program was loaded.
    pub total_cycle_count: u128,
    /// The instructions run by this call.
    pub last_cycle_count: u128,
}

impl Default for CycleResult {
    fn default() -> (r: Self)
        ensures
            r == (CycleResult { video_buff_changed: false, total_cycle_count: 0, last_cycle_count: 0 }),
    {
        CycleResult { video_buff_changed: false, total_cycle_count: 0, last_cycle_count: 0 }
    }
}

/// A machine that a manager can drive.
pub trait Emulator: Sized {
    /// What the machine keeps between calls.
    spec fn inv(&self) -> bool;

    /// The screen as `video_buffer` exports it.
    spec fn video_spec(&self) -> Seq<u8>;

    /// Width and height of the screen.
    spec fn resolution_spec(&self) -> (u32, u32);

    /// The nominal instruction rate.
    spec fn cycles_in_sec_spec(&self) -> u64;

    /// Whether one cycle may take the machine from `self` to `after`, returning `r`.
    spec fn cycle_post(&self, after: Self, r: Result<CycleResult, EmulError>) -> bool;

    /// Whether loading `rom` takes the machine from `self` to `after`, returning `r`.
    spec fn load_post(&self, after: Self, rom: Seq<u8>, r: Result<(), EmulError>) -> bool;

    /// Whether taking the key event (`key`, `pressed`) takes the machine from `self` to `after`.
    spec fn input_post(&self, after: Self, key: u32, pressed: bool) -> bool;

    fn video_buffer(&self) -> (r: Vec<u8>)
        requires
            self.inv(),
        ensures
            r@ == self.video_spec(),
    ;

    fn cycle(&mut self) -> (r: Result<CycleResult, EmulError>)
        requires
            old(self).inv(),
        ensures
            final(self).inv(),
            old(self).cycle_post(*final(self), r),
            final(self).resolution_spec() == old(self).resolution_spec(),
            final(self).cycles_in_sec_spec() == old(self).cycles_in_sec_spec(),
    ;

    fn process_input(&mut self, emul_key: u32, pressed: bool)
        requires
            old(self).inv(),
        ensures
            final(self).inv(),
            old(self).input_post(*final(self), emul_key, pressed),
            final(self).resolution_spec() == old(self).resolution_spec(),
            final(self).cycles_in_sec_spec() == old(self).cycles_in_sec_spec(),
    ;

    fn load_rom(&mut self, rom: &Vec<u8>) -> (r: Result<(), EmulError>)
        requires
            old(self).inv(),
        ensures
            final(self).inv(),
            old(self).load_post(*final(self), rom@, r),
            final(self).resolution_spec() == old(self).resolution_spec(),
            final(self).cycles_in_sec_spec() == old(self).cycles_in_sec_spec(),
    ;

    fn resolution(&self) -> (r: [u32; 2])
        requires
            self.inv(),
        ensures
            r@ == seq![self.resolution_spec().0, self.resolution_spec().1],
    ;

    fn cycles_in_sec(&self) -> (r: u64)
        requires
            self.inv(),
        ensures
            r == self.cycles_in_sec_spec(),
    ;
}

/// The error of a manager that holds no machine, or whose machine is paused.
pub open spec fn not_initialized() -> EmulError {
    EmulError { kind: ErrorKind::NotInitialized, topic: ErrorTopic::Emulator }
}

/// The number of cycles due after `elapsed_ms` milliseconds at `cycles_per_second`,
/// rounded down, and capped at the largest `u64`.
pub fn cycles_for_interval(elapsed_ms: u64, cycles_per_second: u64) -> (r: u64)
    ensures
        r == if elapsed_ms * cycles_per_second / 1000 <= u64::MAX {
            elapsed_ms * cycles_per_second / 1000
        } else {
            u64::MAX as int
        },
{
    assert((elapsed_ms as int) * (cycles_per_second as int) <= u64::MAX * u64::MAX) by (nonlinear_arith)
        requires
            elapsed_ms <= u64::MAX,
            cycles_per_second <= u64::MAX,
    ;
    let due = (elapsed_ms as u128) * (cycles_per_second as u128) / 1000;
    if due <= u64::MAX as u128 {
        due as u64
    } else {
        u64::MAX
    }
}

/// Holds at most one machine, and pauses, resumes and replaces it. The `version` grows
/// by one each time the machine is replaced, so that a consumer can tell.
pub struct EmulMgr<E> {
    emulator: Option<E>,
    version: u32,
    pause: bool,
}

impl<E: Emulator> Default for EmulMgr<E> {
    fn default() -> (r: Self)
        ensures
            r.machine() is None,
            r.spec_version() == 0,
            !r.spec_paused(),
    {
        EmulMgr { emulator: None, version: 0, pause: false }
    }
}

impl<E: Emulator> EmulMgr<E> {
    pub closed spec fn machine(&self) -> Option<E> {
        self.emulator
    }

    pub closed spec fn spec_version(&self) -> u32 {
        self.version
    }

    pub closed spec fn spec_paused(&self) -> bool {
        self.pause
    }

    /// The held machine keeps its own invariant.
    pub open spec fn wf(&self) -> bool {
        self.machine() matches Some(e) ==> e.inv()
    }

    /// Installs `emulator`, dropping any earlier one, and bumps the version (wrapping at
    /// 32 bits).
    pub fn set_emulator(&mut self, emulator: E)
        requires
            emulator.inv(),
        ensures
            final(self).wf(),
            final(self).machine() == Some(emulator),
            final(self).spec_version() == (old(self).spec_version() + 1) % 0x1_0000_0000,
            final(self).spec_paused() == old(self).spec_paused(),
    {
        self.emulator = Some(emulator);
        self.version = if self.version == u32::MAX { 0 } else { self.version + 1 };
    }

    /// What one call of `cycle` does: without a machine, or with the machine paused, it
    /// reports `NotInitialized` and nothing changes; otherwise the held machine runs one
    /// cycle and its result is returned.
    pub open spec fn cycle_step(before: Self, after: Self, r: Result<CycleResult, EmulError>) -> bool {
        &&& after.spec_version() == before.spec_version()
        &&& after.spec_paused() == before.spec_paused()
        &&& (before.machine() is None || before.spec_paused()) ==> r == Err::<CycleResult, EmulError>(not_initialized())
            && after == before
        &&& (before.machine() is Some && !before.spec_paused()) ==> after.machine() is Some
            && before.machine().unwrap().cycle_post(after.machine().unwrap(), r)
    }

    /// Runs the held machine for one cycle. While it is paused, or when there is none, the
    /// call reports `NotInitialized` and changes nothing, so a paused machine resumes from
    /// exactly the state it was paused in.
    pub fn cycle(&mut self) -> (r: Result<CycleResult, EmulError>)
        requires
            old(self).wf(),
        ensures
            final(self).wf(),
            Self::cycle_step(*old(self), *final(self), r),
    {
        if self.pause {
            return Err(self.not_init_error());
        }
        match &mut self.emulator {
            Some(emul) => emul.cycle(),
            None => Err(EmulError::new(ErrorKind::NotInitialized, ErrorTopic::Emulator)),
        }
    }

    /// Any number of `cycle` calls on a paused manager leave it as it was, each reporting
    /// `NotInitialized`: `states[i + 1]` and `results[i]` are what the `i`-th call left and
    /// returned.
    pub proof fn lemma_paused_cycles(states: Seq<Self>, results: Seq<Result<CycleResult, EmulError>>)
        requires
            states.len() == results.len() + 1,
            states[0].spec_paused(),
            forall|i: int| 0 <= i < results.len() ==> #[trigger] Self::cycle_step(states[i], states[i + 1], results[i]),
        ensures
            forall|i: int| 0 <= i < states.len() ==> #[trigger] states[i] == states[0],
            forall|i: int| 0 <= i < results.len() ==> #[trigger] results[i] == Err::<CycleResult, EmulError>(not_initialized()),
        decreases results.len(),
    {
        if results.len() > 0 {
            let n = results.len() - 1;
            Self::lemma_paused_cycles(states.take(n + 1), results.take(n));
            assert(states.take(n + 1)[n as int] == states[n as int]);
            assert(Self::cycle_step(states[n as int], states[n + 1], results[n as int]));
            assert forall|i: int| 0 <= i < states.len() implies #[trigger] states[i] == states[0] by {
                if i <= n {
                    assert(states.take(n + 1)[i] == states[i]);
                }
            }
            assert forall|i: int| 0 <= i < results.len() implies #[trigger] results[i] == Err::<CycleResult, EmulError>(not_initialized()) by {
                if i < n {
                    assert(results.take(n)[i] == results[i]);
                }
            }
        }
    }

    /// Pauses or resumes the held machine; without one, nothing changes.
    pub fn set_pause(&mut self, pause: bool)
        ensures
            final(self).machine() == old(self).machine(),
            final(self).spec_version() == old(self).spec_version(),
            final(self).spec_paused() == if old(self).machine() is Some { pause } else { old(self).spec_paused() },
    {
        if self.emulator.is_some() {
            self.pause = pause;
        }
    }

    pub fn is_paused(&self) -> (r: bool)
        ensures
            r == self.spec_paused(),
    {
        self.pause
    }

    /// A copy of the screen of the held machine.
    pub fn video_buffer(&self) -> (r: Result<Vec<u8>, EmulError>)
        requires
            self.wf(),
        ensures
            match self.machine() {
                Some(e) => r matches Ok(v) && v@ == e.video_spec(),
                None => r == Err::<Vec<u8>, EmulError>(not_initialized()),
            },
    {
        match &self.emulator {
            Some(emul) => Ok(emul.video_buffer()),
            None => Err(self.not_init_error()),
        }
    }

    /// Hands a key event to the held machine, if there is one.
    pub fn process_input(&mut self, emul_key: u32, pressed: bool)
        requires
            old(self).wf(),
        ensures
            final(self).wf(),
            final(self).spec_version() == old(self).spec_version(),
            final(self).spec_paused() == old(self).spec_paused(),
            old(self).machine() is None ==> *final(self) == *old(self),
            old(self).machine() is Some ==> final(self).machine() is Some
                && old(self).machine().unwrap().input_post(final(self).machine().unwrap(), emul_key, pressed),
    {
        if let Some(emul) = &mut self.emulator {
            emul.process_input(emul_key, pressed);
        }
    }

    pub fn version(&self) -> (r: u32)
        ensures
            r == self.spec_version(),
    {
        self.version
    }

    /// Width and height of the held machine's screen.
    pub fn resolution(&self) -> (r: Result<[u32; 2], EmulError>)
        requires
            self.wf(),
        ensures
            match self.machine() {
                Some(e) => r matches Ok(a) && a@ == seq![e.resolution_spec().0, e.resolution_spec().1],
                None => r == Err::<[u32; 2], EmulError>(not_initialized()),
            },
    {
        match &self.emulator {
            Some(emul) => Ok(emul.resolution()),
            None => Err(self.not_init_error()),
        }
    }

    /// The nominal instruction rate of the held machine.
    pub fn cycles_in_sec(&self) -> (r: Result<u64, EmulError>)
        requires
            self.wf(),
        ensures
            match self.machine() {
                Some(e) => r == Ok::<u64, EmulError>(e.cycles_in_sec_spec()),
                None => r == Err::<u64, EmulError>(not_initialized()),
            },
    {
        match &self.emulator {
            Some(emul) => Ok(emul.cycles_in_sec()),
            None => Err(self.not_init_error()),
        }
    }

    fn not_init_error(&self) -> (r: EmulError)
        ensures
            r == not_initialized(),
    {
        EmulError::new(ErrorKind::NotInitialized, ErrorTopic::Emulator)
    }
}

} // verus!
