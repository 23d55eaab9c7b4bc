use vstd::prelude::*;

use crate::errors::{EmulError, ErrorKind, ErrorTopic};
use crate::machine::{
    alu_spec, bcd_spec, call_spec, cls_spec, col_of, collides, covers, cycle_spec, decode_spec, draw_spec,
    drawn, exec_spec, first_pressed, font_spec, key_down, kk_of, load_regs_spec, loaded, nnn_of, pixel_at,
    power_on, ret_spec, row_of, skipped, state_wf, store_regs_spec, tick_spec, touches_video, wait_key_spec,
    with_reg, wrap16, x_of, y_of, MachineState, COLOR, FLAG, FONTSET_START_ADDRESS, KEY_COUNT, MEMORY_SIZE,
    REGISTERS_COUNT, STACK_LEVELS, START_ADDRESS, VIDEO_HEIGHT, VIDEO_WIDTH,
};
use crate::ram::Ram;
use crate::vram::Vram;

verus! {

/// Whether `r` and the state change from `before` to `after` are what `expected` says:
/// the new state on success, the error and no change on failure.
pub open spec fn outcome(
    before: MachineState,
    after: MachineState,
    r: Result<(), EmulError>,
    expected: Result<MachineState, EmulError>,
) -> bool {
    match expected {
        Ok(t) => r is Ok && after == t,
        Err(e) => r == Err::<(), EmulError>(e) && after == before,
    }
}

/// `a + b`, wrapped to 16 bits.
fn wrap_add16(a: u16, b: u16) -> (r: u16)
    ensures
        r == wrap16(a + b),
{
    if a as u32 + b as u32 <= 0xFFFF {
        a + b
    } else {
        (a as u32 + b as u32 - 0x10000) as u16
    }
}

/// The dispatch key of an opcode.
pub fn decode(opcode: u16) -> (r: u16)
    ensures
        r == decode_spec(opcode),
{
    let family = opcode / 4096;
    if family == 0 || family == 8 || family == 14 {
        opcode & 0xF00F
    } else if family == 15 {
        opcode & 0xF0FF
    } else {
        opcode & 0xF000
    }
}

/// Whether pixel `p`'s cell of the sprite comes before cell `t` in row-major order.
spec fn drawn_before(x0: int, y0: int, t: int, p: int) -> bool {
    col_of(x0, p) < 8 && row_of(y0, p) * 8 + col_of(x0, p) < t
}

/// A sprite cell lands on the screen and maps back to itself.
proof fn lemma_pixel_inverse(x0: int, y0: int, row: int, col: int)
    requires
        0 <= x0 < 64,
        0 <= y0 < 32,
        0 <= row < 32,
        0 <= col < 64,
    ensures
        0 <= pixel_at(x0, y0, row, col) < 2048,
        row_of(y0, pixel_at(x0, y0, row, col)) == row,
        col_of(x0, pixel_at(x0, y0, row, col)) == col,
{
    let a = (y0 + row) % 32;
    let b = (x0 + col) % 64;
    let q = a * 64 + b;
    assert(q / 64 == a && q % 64 == b) by {
        vstd::arithmetic::div_mod::lemma_fundamental_div_mod_converse(q, 64, a, b);
    }
}

/// Every pixel is the image of the sprite cell that maps back from it.
proof fn lemma_pixel_unique(x0: int, y0: int, p: int)
    requires
        0 <= x0 < 64,
        0 <= y0 < 32,
        0 <= p < 2048,
    ensures
        pixel_at(x0, y0, row_of(y0, p), col_of(x0, p)) == p,
        0 <= row_of(y0, p) < 32,
        0 <= col_of(x0, p) < 64,
{
    let a = p / 64;
    let b = p % 64;
    assert(p == a * 64 + b && 0 <= a < 32 && 0 <= b < 64) by {
        vstd::arithmetic::div_mod::lemma_fundamental_div_mod(p, 64);
    }
}

/// The registers, memory, screen, stack, timers and keypad of the machine, and the
/// instruction handlers that change them.
pub struct Interpreter {
    memory: Ram,
    video_memory: Vram,
    registers: Vec<u8>,
    stack: Vec<u16>,
    keypad: Vec<u8>,
    pc: u16,
    sp: u8,
    index: u16,
    opcode: u16,
    delay_timer: u8,
    sound_timer: u8,
}

impl View for Interpreter {
    type V = MachineState;

    closed spec fn view(&self) -> MachineState {
        MachineState {
            ram: self.memory@,
            video: self.video_memory.pixels(),
            v: self.registers@,
            stack: self.stack@,
            keypad: self.keypad@,
            pc: self.pc,
            sp: self.sp,
            index: self.index,
            opcode: self.opcode,
            delay_timer: self.delay_timer,
            sound_timer: self.sound_timer,
        }
    }
}

/// A vector of `n` zeros.
fn zeros_u8(n: usize) -> (r: Vec<u8>)
    ensures
        r@ == Seq::new(n as nat, |_i: int| 0u8),
{
    let mut v: Vec<u8> = Vec::new();
    let mut i: usize = 0;
    while i < n
        invariant
            i <= n,
            v@ == Seq::new(i as nat, |_i: int| 0u8),
        decreases n - i,
    {
        v.push(0u8);
        i += 1;
        assert(v@ =~= Seq::new(i as nat, |_i: int| 0u8));
    }
    v
}

/// A vector of `n` zeros.
fn zeros_u16(n: usize) -> (r: Vec<u16>)
    ensures
        r@ == Seq::new(n as nat, |_i: int| 0u16),
{
    let mut v: Vec<u16> = Vec::new();
    let mut i: usize = 0;
    while i < n
        invariant
            i <= n,
            v@ == Seq::new(i as nat, |_i: int| 0u16),
        decreases n - i,
    {
        v.push(0u16);
        i += 1;
        assert(v@ =~= Seq::new(i as nat, |_i: int| 0u16));
    }
    v
}

/// The built-in glyphs.
fn font_set() -> (r: Vec<u8>)
    ensures
        r@ == font_spec(),
{
    let r: Vec<u8> = vec![
        0xF0u8, 0x90, 0x90, 0x90, 0xF0,
        0x20, 0x60, 0x20, 0x20, 0x70,
        0xF0, 0x10, 0xF0, 0x80, 0xF0,
        0xF0, 0x10, 0xF0, 0x10, 0xF0,
        0x90, 0x90, 0xF0, 0x10, 0x10,
        0xF0, 0x80, 0xF0, 0x10, 0xF0,
        0xF0, 0x80, 0xF0, 0x90, 0xF0,
        0xF0, 0x10, 0x20, 0x40, 0x40,
        0xF0, 0x90, 0xF0, 0x90, 0xF0,
        0xF0, 0x90, 0xF0, 0x10, 0xF0,
        0xF0, 0x90, 0xF0, 0x90, 0x90,
        0xE0, 0x90, 0xE0, 0x90, 0xE0,
        0xF0, 0x80, 0x80, 0x80, 0xF0,
        0xE0, 0x90, 0x90, 0x90, 0xE0,
        0xF0, 0x80, 0xF0, 0x80, 0xF0,
        0xF0, 0x80, 0xF0, 0x80, 0x80,
    ];
    assert(r@ =~= font_spec());
    r
}

impl Interpreter {
    /// The sizes the machine keeps.
    pub closed spec fn wf(&self) -> bool {
        &&& state_wf(self@)
        &&& self.video_memory.wf()
        &&& self.video_memory.spec_width() == VIDEO_WIDTH
        &&& self.video_memory.spec_height() == VIDEO_HEIGHT
    }

    /// A well-formed machine has the sizes every state keeps.
    pub proof fn lemma_wf_sizes(&self)
        requires
            self.wf(),
        ensures
            state_wf(self@),
    {
    }

    /// The machine at power-on, with the font installed.
    pub fn new() -> (r: Self)
        ensures
            r.wf(),
            r@ == power_on(),
    {
        let mut memory = Ram::new(MEMORY_SIZE);
        let font = font_set();
        let res = memory.write_block(FONTSET_START_ADDRESS, &font);
        assert(res is Ok);
        let r = Interpreter {
            memory,
            video_memory: Vram::new(VIDEO_WIDTH, VIDEO_HEIGHT),
            registers: zeros_u8(REGISTERS_COUNT),
            stack: zeros_u16(STACK_LEVELS),
            keypad: zeros_u8(KEY_COUNT),
            pc: START_ADDRESS as u16,
            sp: 0,
            index: 0,
            opcode: 0,
            delay_timer: 0,
            sound_timer: 0,
        };
        assert(r@ =~= power_on());
        r
    }

    /// Runs the instruction in the opcode register; `rnd` is the byte RND draws.
    pub fn exec_instruction(&mut self, rnd: u8) -> (r: Result<(), EmulError>)
        requires
            old(self).wf(),
        ensures
            final(self).wf(),
            outcome(old(self)@, final(self)@, r, exec_spec(old(self)@, rnd)),
    {
        let key = decode(self.opcode);
        match key {
            0x0000 => { self.op_00e0(); Ok(()) },
            0x000E => self.op_00ee(),
            0x1000 => { self.op_1nnn(); Ok(()) },
            0x2000 => self.op_2nnn(),
            0x3000 => { self.op_3xkk(); Ok(()) },
            0x4000 => { self.op_4xkk(); Ok(()) },
            0x5000 => { self.op_5xy0(); Ok(()) },
            0x6000 => { self.op_6xkk(); Ok(()) },
            0x7000 => { self.op_7xkk(); Ok(()) },
            0x8000 => { self.op_8xy0(); Ok(()) },
            0x8001 => { self.op_8xy1(); Ok(()) },
            0x8002 => { self.op_8xy2(); Ok(()) },
            0x8003 => { self.op_8xy3(); Ok(()) },
            0x8004 => { self.op_8xy4(); Ok(()) },
            0x8005 => { self.op_8xy5(); Ok(()) },
            0x8006 => { self.op_8xy6(); Ok(()) },
            0x8007 => { self.op_8xy7(); Ok(()) },
            0x800E => { self.op_8xye(); Ok(()) },
            0x9000 => { self.op_9xy0(); Ok(()) },
            0xA000 => { self.op_annn(); Ok(()) },
            0xB000 => { self.op_bnnn(); Ok(()) },
            0xC000 => { self.op_cxkk(rnd); Ok(()) },
            0xD000 => self.op_dxyn(),
            0xE00E => { self.op_ex9e(); Ok(()) },
            0xE001 => { self.op_exa1(); Ok(()) },
            0xF007 => { self.op_fx07(); Ok(()) },
            0xF00A => { self.op_fx0a(); Ok(()) },
            0xF015 => { self.op_fx15(); Ok(()) },
            0xF018 => { self.op_fx18(); Ok(()) },
            0xF01E => { self.op_fx1e(); Ok(()) },
            0xF029 => { self.op_fx29(); Ok(()) },
            0xF033 => self.op_fx33(),
            0xF055 => self.op_fx55(),
            0xF065 => self.op_fx65(),
            _ => Err(EmulError::new(ErrorKind::UnknownInstruction { opcode: self.opcode }, ErrorTopic::Emulator)),
        }
    }

    /// Each running timer one step closer to zero.
    pub fn tick_timers(&mut self)
        requires
            old(self).wf(),
        ensures
            final(self).wf(),
            final(self)@ == tick_spec(old(self)@),
    {
        if self.delay_timer > 0 {
            self.delay_timer = self.delay_timer - 1;
        }
        if self.sound_timer > 0 {
            self.sound_timer = self.sound_timer - 1;
        }
    }

    /// One cycle: fetch the instruction at the program counter, run it, tick the timers.
    /// On success tells whether the screen may have changed; on failure nothing changes.
    /// `rnd` is the byte that RND draws.
    pub fn step(&mut self, rnd: u8) -> (r: Result<bool, EmulError>)
        requires
            old(self).wf(),
        ensures
            final(self).wf(),
            match cycle_spec(old(self)@, rnd) {
                Ok(t) => r == Ok::<bool, EmulError>(touches_video(decode_spec(t.opcode))) && final(self)@ == t,
                Err(e) => r == Err::<bool, EmulError>(e) && final(self)@ == old(self)@,
            },
    {
        let pc = self.pc;
        let opcode = self.opcode;
        let word = match self.memory.read_word(pc as usize) {
            Ok(w) => w,
            Err(e) => return Err(e),
        };
        self.opcode = word;
        self.pc = wrap_add16(pc, 2);
        match self.exec_instruction(rnd) {
            Ok(()) => {
                self.tick_timers();
                Ok(decode(word) == 0x0000 || decode(word) == 0xD000)
            },
            Err(e) => {
                self.pc = pc;
                self.opcode = opcode;
                Err(e)
            },
        }
    }

    /// Resets the machine to power-on and loads `rom` at the load address; a program that
    /// does not fit leaves the machine as it was.
    pub fn load(&mut self, rom: &Vec<u8>) -> (r: Result<(), EmulError>)
        requires
            old(self).wf(),
        ensures
            final(self).wf(),
            rom@.len() <= MEMORY_SIZE - START_ADDRESS ==> r is Ok && final(self)@ == loaded(rom@),
            rom@.len() > MEMORY_SIZE - START_ADDRESS ==> r == Err::<(), EmulError>(EmulError {
                kind: ErrorKind::OutOfBounds { addr: START_ADDRESS, max: MEMORY_SIZE, size: rom@.len() as usize },
                topic: ErrorTopic::RamWrite,
            }) && *final(self) == *old(self),
    {
        if rom.len() > MEMORY_SIZE - START_ADDRESS {
            return Err(EmulError::new(
                ErrorKind::OutOfBounds { addr: START_ADDRESS, max: MEMORY_SIZE, size: rom.len() },
                ErrorTopic::RamWrite,
            ));
        }
        let mut fresh = Interpreter::new();
        let res = fresh.memory.write_block(START_ADDRESS, rom);
        assert(res is Ok);
        *self = fresh;
        assert(self@ =~= loaded(rom@));
        Ok(())
    }

    pub fn pc(&self) -> (r: u16)
        ensures
            r == self@.pc,
    {
        self.pc
    }

    pub fn sp(&self) -> (r: u8)
        ensures
            r == self@.sp,
    {
        self.sp
    }

    pub fn index(&self) -> (r: u16)
        ensures
            r == self@.index,
    {
        self.index
    }

    pub fn opcode(&self) -> (r: u16)
        ensures
            r == self@.opcode,
    {
        self.opcode
    }

    pub fn delay_timer(&self) -> (r: u8)
        ensures
            r == self@.delay_timer,
    {
        self.delay_timer
    }

    pub fn sound_timer(&self) -> (r: u8)
        ensures
            r == self@.sound_timer,
    {
        self.sound_timer
    }

    /// The register `i`, or `None` past the sixteen registers.
    pub fn register(&self, i: usize) -> (r: Option<u8>)
        requires
            self.wf(),
        ensures
            r == if i < REGISTERS_COUNT { Some(self@.v[i as int]) } else { None::<u8> },
    {
        if i < REGISTERS_COUNT {
            Some(self.registers[i])
        } else {
            None
        }
    }

    /// Sets register `i`; an index past the sixteen registers changes nothing.
    pub fn set_register(&mut self, i: usize, value: u8)
        requires
            old(self).wf(),
        ensures
            final(self).wf(),
            final(self)@ == if i < REGISTERS_COUNT { with_reg(old(self)@, i as int, value) } else { old(self)@ },
    {
        if i < REGISTERS_COUNT {
            self.registers.set(i, value);
        }
    }

    /// Places an instruction in the opcode register, to be run by `exec_instruction`.
    pub fn set_opcode(&mut self, opcode: u16)
        requires
            old(self).wf(),
        ensures
            final(self).wf(),
            final(self)@ == (MachineState { opcode, ..old(self)@ }),
    {
        self.opcode = opcode;
    }

    /// Presses or releases logical key `key`; keys past the keypad are ignored.
    pub fn set_key(&mut self, key: u32, pressed: bool)
        requires
            old(self).wf(),
        ensures
            final(self).wf(),
            final(self)@ == if key < KEY_COUNT {
                MachineState { keypad: old(self)@.keypad.update(key as int, if pressed { 1u8 } else { 0u8 }), ..old(self)@ }
            } else {
                old(self)@
            },
    {
        if (key as usize) < KEY_COUNT {
            self.keypad.set(key as usize, if pressed { 1u8 } else { 0u8 });
        }
    }

    /// The byte at `addr`.
    pub fn read_memory(&self, addr: usize) -> (r: Result<u8, EmulError>)
        ensures
            r == crate::ram::read_byte_spec(self@.ram, addr),
    {
        self.memory.read_byte(addr)
    }

    /// Writes the byte at `addr`.
    pub fn write_memory(&mut self, addr: usize, value: u8) -> (r: Result<(), EmulError>)
        requires
            old(self).wf(),
        ensures
            final(self).wf(),
            match crate::ram::write_byte_spec(old(self)@.ram, addr, value) {
                Ok(m) => r is Ok && final(self)@ == (MachineState { ram: m, ..old(self)@ }),
                Err(e) => r == Err::<(), EmulError>(e) && final(self)@ == old(self)@,
            },
    {
        self.memory.write_byte(addr, value)
    }

    /// The pixel at linear position `addr`, or `None` past the screen.
    pub fn pixel(&self, addr: usize) -> (r: Option<u32>)
        requires
            self.wf(),
        ensures
            r == if addr < self@.video.len() { Some(self@.video[addr as int]) } else { None::<u32> },
    {
        if addr < self.video_memory.size() {
            Some(self.video_memory.read_pixel(addr))
        } else {
            None
        }
    }

    /// The screen, four big-endian bytes per pixel, row after row.
    pub fn video_buffer(&self) -> (r: Vec<u8>)
        ensures
            r@ == crate::vram::plane8(self@.video),
    {
        self.video_memory.video_8()
    }

    /// The register index in bits 8..12 of the opcode.
    fn x(&self) -> (r: usize)
        ensures
            r == x_of(self.opcode),
            r < 16,
    {
        (self.opcode / 256 % 16) as usize
    }

    /// The register index in bits 4..8 of the opcode.
    fn y(&self) -> (r: usize)
        ensures
            r == y_of(self.opcode),
            r < 16,
    {
        (self.opcode / 16 % 16) as usize
    }

    /// The program counter moved past the next instruction.
    fn skip(&mut self)
        requires
            old(self).wf(),
        ensures
            final(self).wf(),
            final(self)@ == skipped(old(self)@),
    {
        self.pc = wrap_add16(self.pc, 2);
    }

    /// CLS: every pixel off.
    pub fn op_00e0(&mut self)
        requires
            old(self).wf(),
        ensures
            final(self).wf(),
            final(self)@ == cls_spec(old(self)@),
    {
        self.video_memory.clear();
    }

    /// RET: return from a subroutine.
    pub fn op_00ee(&mut self) -> (r: Result<(), EmulError>)
        requires
            old(self).wf(),
        ensures
            final(self).wf(),
            outcome(old(self)@, final(self)@, r, ret_spec(old(self)@)),
    {
        if self.sp == 0 {
            return Err(EmulError::new(ErrorKind::StackUnderflow, ErrorTopic::Emulator));
        }
        self.sp = self.sp - 1;
        self.pc = self.stack[self.sp as usize];
        Ok(())
    }

    /// JP nnn.
    pub fn op_1nnn(&mut self)
        requires
            old(self).wf(),
        ensures
            final(self).wf(),
            final(self)@ == (MachineState { pc: nnn_of(old(self)@.opcode), ..old(self)@ }),
    {
        self.pc = self.opcode % 4096;
    }

    /// CALL nnn: push the return address, jump.
    pub fn op_2nnn(&mut self) -> (r: Result<(), EmulError>)
        requires
            old(self).wf(),
        ensures
            final(self).wf(),
            outcome(old(self)@, final(self)@, r, call_spec(old(self)@)),
    {
        if self.sp as usize >= STACK_LEVELS {
            return Err(EmulError::new(ErrorKind::StackOverflow, ErrorTopic::Emulator));
        }
        self.stack.set(self.sp as usize, self.pc);
        self.sp = self.sp + 1;
        self.pc = self.opcode % 4096;
        Ok(())
    }

    /// SE Vx, kk: skip if equal.
    pub fn op_3xkk(&mut self)
        requires
            old(self).wf(),
        ensures
            final(self).wf(),
            final(self)@ == if old(self)@.v[x_of(old(self)@.opcode)] == kk_of(old(self)@.opcode) {
                skipped(old(self)@)
            } else {
                old(self)@
            },
    {
        let x = self.x();
        if self.registers[x] == (self.opcode % 256) as u8 {
            self.skip();
        }
    }

    /// SNE Vx, kk: skip if not equal.
    pub fn op_4xkk(&mut self)
        requires
            old(self).wf(),
        ensures
            final(self).wf(),
            final(self)@ == if old(self)@.v[x_of(old(self)@.opcode)] != kk_of(old(self)@.opcode) {
                skipped(old(self)@)
            } else {
                old(self)@
            },
    {
        let x = self.x();
        if self.registers[x] != (self.opcode % 256) as u8 {
            self.skip();
        }
    }

    /// SE Vx, Vy: skip if the registers are equal.
    pub fn op_5xy0(&mut self)
        requires
            old(self).wf(),
        ensures
            final(self).wf(),
            final(self)@ == if old(self)@.v[x_of(old(self)@.opcode)] == old(self)@.v[y_of(old(self)@.opcode)] {
                skipped(old(self)@)
            } else {
                old(self)@
            },
    {
        let x = self.x();
        let y = self.y();
        if self.registers[x] == self.registers[y] {
            self.skip();
        }
    }

    /// LD Vx, kk.
    pub fn op_6xkk(&mut self)
        requires
            old(self).wf(),
        ensures
            final(self).wf(),
            final(self)@ == with_reg(old(self)@, x_of(old(self)@.opcode), kk_of(old(self)@.opcode)),
    {
        let x = self.x();
        self.registers.set(x, (self.opcode % 256) as u8);
    }

    /// ADD Vx, kk: no flag.
    pub fn op_7xkk(&mut self)
        requires
            old(self).wf(),
        ensures
            final(self).wf(),
            final(self)@ == with_reg(
                old(self)@,
                x_of(old(self)@.opcode),
                ((old(self)@.v[x_of(old(self)@.opcode)] + kk_of(old(self)@.opcode)) % 256) as u8,
            ),
    {
        let x = self.x();
        let sum = self.registers[x] as u16 + self.opcode % 256;
        self.registers.set(x, (sum % 256) as u8);
    }

    /// Sets the flag register, then Vx.
    fn set_flag_then_reg(&mut self, flag: u8, x: usize, value: u8)
        requires
            old(self).wf(),
            x < 16,
        ensures
            final(self).wf(),
            final(self)@ == (MachineState { v: old(self)@.v.update(FLAG as int, flag).update(x as int, value), ..old(self)@ }),
    {
        self.registers.set(FLAG, flag);
        self.registers.set(x, value);
    }

    /// LD Vx, Vy.
    pub fn op_8xy0(&mut self)
        requires
            old(self).wf(),
        ensures
            final(self).wf(),
            final(self)@ == alu_spec(old(self)@, 0),
    {
        let x = self.x();
        let y = self.y();
        let vy = self.registers[y];
        self.registers.set(x, vy);
    }

    /// OR Vx, Vy.
    pub fn op_8xy1(&mut self)
        requires
            old(self).wf(),
        ensures
            final(self).wf(),
            final(self)@ == alu_spec(old(self)@, 1),
    {
        let x = self.x();
        let y = self.y();
        let r = self.registers[x] | self.registers[y];
        self.registers.set(x, r);
    }

    /// AND Vx, Vy.
    pub fn op_8xy2(&mut self)
        requires
            old(self).wf(),
        ensures
            final(self).wf(),
            final(self)@ == alu_spec(old(self)@, 2),
    {
        let x = self.x();
        let y = self.y();
        let r = self.registers[x] & self.registers[y];
        self.registers.set(x, r);
    }

    /// XOR Vx, Vy.
    pub fn op_8xy3(&mut self)
        requires
            old(self).wf(),
        ensures
            final(self).wf(),
            final(self)@ == alu_spec(old(self)@, 3),
    {
        let x = self.x();
        let y = self.y();
        let r = self.registers[x] ^ self.registers[y];
        self.registers.set(x, r);
    }

    /// ADD Vx, Vy: VF is the carry.
    pub fn op_8xy4(&mut self)
        requires
            old(self).wf(),
        ensures
            final(self).wf(),
            final(self)@ == alu_spec(old(self)@, 4),
    {
        let x = self.x();
        let y = self.y();
        let sum = self.registers[x] as u16 + self.registers[y] as u16;
        let carry: u8 = if sum > 255 { 1 } else { 0 };
        self.set_flag_then_reg(carry, x, (sum % 256) as u8);
    }

    /// SUB Vx, Vy: VF is 1 when there is no borrow.
    pub fn op_8xy5(&mut self)
        requires
            old(self).wf(),
        ensures
            final(self).wf(),
            final(self)@ == alu_spec(old(self)@, 5),
    {
        let x = self.x();
        let y = self.y();
        let vx = self.registers[x];
        let vy = self.registers[y];
        let no_borrow: u8 = if vx >= vy { 1 } else { 0 };
        let diff = ((vx as u16 + 256 - vy as u16) % 256) as u8;
        self.set_flag_then_reg(no_borrow, x, diff);
    }

    /// SHR Vx: VF is the bit shifted out.
    pub fn op_8xy6(&mut self)
        requires
            old(self).wf(),
        ensures
            final(self).wf(),
            final(self)@ == alu_spec(old(self)@, 6),
    {
        let x = self.x();
        let vx = self.registers[x];
        self.set_flag_then_reg(vx % 2, x, vx / 2);
    }

    /// SUBN Vx, Vy: Vx = Vy - Vx, VF is 1 when there is no borrow.
    pub fn op_8xy7(&mut self)
        requires
            old(self).wf(),
        ensures
            final(self).wf(),
            final(self)@ == alu_spec(old(self)@, 7),
    {
        let x = self.x();
        let y = self.y();
        let vx = self.registers[x];
        let vy = self.registers[y];
        let no_borrow: u8 = if vy >= vx { 1 } else { 0 };
        let diff = ((vy as u16 + 256 - vx as u16) % 256) as u8;
        self.set_flag_then_reg(no_borrow, x, diff);
    }

    /// SHL Vx: VF is the bit shifted out.
    pub fn op_8xye(&mut self)
        requires
            old(self).wf(),
        ensures
            final(self).wf(),
            final(self)@ == alu_spec(old(self)@, 14),
    {
        let x = self.x();
        let vx = self.registers[x];
        self.set_flag_then_reg(vx / 128, x, ((vx as u16 * 2) % 256) as u8);
    }

    /// SNE Vx, Vy: skip if the registers differ.
    pub fn op_9xy0(&mut self)
        requires
            old(self).wf(),
        ensures
            final(self).wf(),
            final(self)@ == if old(self)@.v[x_of(old(self)@.opcode)] != old(self)@.v[y_of(old(self)@.opcode)] {
                skipped(old(self)@)
            } else {
                old(self)@
            },
    {
        let x = self.x();
        let y = self.y();
        if self.registers[x] != self.registers[y] {
            self.skip();
        }
    }

    /// LD I, nnn.
    pub fn op_annn(&mut self)
        requires
            old(self).wf(),
        ensures
            final(self).wf(),
            final(self)@ == (MachineState { index: nnn_of(old(self)@.opcode), ..old(self)@ }),
    {
        self.index = self.opcode % 4096;
    }

    /// JP V0, nnn.
    pub fn op_bnnn(&mut self)
        requires
            old(self).wf(),
        ensures
            final(self).wf(),
            final(self)@ == (MachineState { pc: (old(self)@.v[0] + nnn_of(old(self)@.opcode)) as u16, ..old(self)@ }),
    {
        self.pc = self.registers[0] as u16 + self.opcode % 4096;
    }

    /// RND Vx, kk, with `rnd` the random byte drawn for it.
    pub fn op_cxkk(&mut self, rnd: u8)
        requires
            old(self).wf(),
        ensures
            final(self).wf(),
            final(self)@ == with_reg(old(self)@, x_of(old(self)@.opcode), rnd & kk_of(old(self)@.opcode)),
    {
        let x = self.x();
        self.registers.set(x, rnd & (self.opcode % 256) as u8);
    }

    /// DRW Vx, Vy, n: XOR the `n`-row sprite at I onto the screen at (Vx, Vy), wrapping
    /// around the edges; VF tells whether a lit pixel was turned off.
    pub fn op_dxyn(&mut self) -> (r: Result<(), EmulError>)
        requires
            old(self).wf(),
        ensures
            final(self).wf(),
            outcome(old(self)@, final(self)@, r, draw_spec(old(self)@)),
    {
        let x = self.x();
        let y = self.y();
        let n = (self.opcode % 16) as usize;
        let index = self.index as usize;
        if index + n > MEMORY_SIZE {
            return Err(EmulError::new(ErrorKind::OutOfBounds { addr: index, max: MEMORY_SIZE, size: n }, ErrorTopic::RamRead));
        }
        let x0 = (self.registers[x] % 64) as usize;
        let y0 = (self.registers[y] % 32) as usize;
        let ghost before = self@;
        let mut collision = false;
        let total = n * 8;
        let mut t: usize = 0;
        while t < total
            invariant
                self.wf(),
                n < 16,
                total == n * 8,
                index + n <= MEMORY_SIZE,
                index == before.index,
                x0 < 64,
                y0 < 32,
                t <= total,
                self@ == (MachineState { video: self@.video, ..before }),
                forall|p: int|
                    0 <= p < 2048 ==> #[trigger] self@.video[p] == if covers(before.ram, index as int, x0 as int, y0 as int, n as int, p)
                        && drawn_before(x0 as int, y0 as int, t as int, p) {
                        before.video[p] ^ COLOR
                    } else {
                        before.video[p]
                    },
                collision == exists|p: int|
                    0 <= p < 2048 && #[trigger] covers(before.ram, index as int, x0 as int, y0 as int, n as int, p)
                        && drawn_before(x0 as int, y0 as int, t as int, p) && before.video[p] == COLOR,
            decreases total - t,
        {
            let row = t / 8;
            let col = t % 8;
            let ghost q = pixel_at(x0 as int, y0 as int, row as int, col as int);
            proof {
                lemma_pixel_inverse(x0 as int, y0 as int, row as int, col as int);
                assert forall|p: int| 0 <= p < 2048 implies
                    (drawn_before(x0 as int, y0 as int, t + 1, p) <==> (drawn_before(x0 as int, y0 as int, t as int, p) || p == q)) by {
                    lemma_pixel_unique(x0 as int, y0 as int, p);
                }
            }
            let sprite_byte = match self.memory.read_byte(index + row) {
                Ok(b) => b,
                Err(_) => 0,
            };
            assert(sprite_byte == before.ram[index + row]);
            let ghost was_collision = collision;
            if sprite_byte & (0x80u8 >> (col as u8)) != 0 {
                let addr = ((y0 + row) % 32) * 64 + (x0 + col) % 64;
                assert(addr == q);
                let screen = self.video_memory.read_pixel(addr);
                if screen == COLOR {
                    collision = true;
                }
                self.video_memory.write_pixel(addr, screen ^ COLOR);
            }
            proof {
                assert(covers(before.ram, index as int, x0 as int, y0 as int, n as int, q)
                    == (sprite_byte & (0x80u8 >> (col as u8)) != 0));
                if collision && !was_collision {
                    assert(covers(before.ram, index as int, x0 as int, y0 as int, n as int, q));
                    assert(drawn_before(x0 as int, y0 as int, t + 1, q));
                }
                if was_collision {
                    let w = choose|p: int|
                        0 <= p < 2048 && #[trigger] covers(before.ram, index as int, x0 as int, y0 as int, n as int, p)
                            && drawn_before(x0 as int, y0 as int, t as int, p) && before.video[p] == COLOR;
                    assert(drawn_before(x0 as int, y0 as int, t + 1, w));
                }
            }
            t += 1;
        }
        let flag: u8 = if collision { 1 } else { 0 };
        self.registers.set(FLAG, flag);
        proof {
            let ram = before.ram;
            assert forall|p: int| 0 <= p < 2048 && #[trigger] covers(ram, index as int, x0 as int, y0 as int, n as int, p) implies
                drawn_before(x0 as int, y0 as int, t as int, p) by {
                lemma_pixel_unique(x0 as int, y0 as int, p);
            }
            assert(self@.video =~= drawn(before.video, ram, index as int, x0 as int, y0 as int, n as int));
            assert(collision == collides(before.video, ram, index as int, x0 as int, y0 as int, n as int));
        }
        Ok(())
    }

    /// Whether logical key `key` is held down.
    fn key_pressed(&self, key: u8) -> (r: bool)
        requires
            self.wf(),
        ensures
            r == key_down(self@, key),
    {
        (key as usize) < KEY_COUNT && self.keypad[key as usize] != 0
    }

    /// SKP Vx: skip if the key in Vx is held.
    pub fn op_ex9e(&mut self)
        requires
            old(self).wf(),
        ensures
            final(self).wf(),
            final(self)@ == if key_down(old(self)@, old(self)@.v[x_of(old(self)@.opcode)]) {
                skipped(old(self)@)
            } else {
                old(self)@
            },
    {
        let x = self.x();
        if self.key_pressed(self.registers[x]) {
            self.skip();
        }
    }

    /// SKNP Vx: skip if the key in Vx is not held.
    pub fn op_exa1(&mut self)
        requires
            old(self).wf(),
        ensures
            final(self).wf(),
            final(self)@ == if !key_down(old(self)@, old(self)@.v[x_of(old(self)@.opcode)]) {
                skipped(old(self)@)
            } else {
                old(self)@
            },
    {
        let x = self.x();
        if !self.key_pressed(self.registers[x]) {
            self.skip();
        }
    }

    /// LD Vx, DT.
    pub fn op_fx07(&mut self)
        requires
            old(self).wf(),
        ensures
            final(self).wf(),
            final(self)@ == with_reg(old(self)@, x_of(old(self)@.opcode), old(self)@.delay_timer),
    {
        let x = self.x();
        self.registers.set(x, self.delay_timer);
    }

    /// The lowest held key, or the keypad's size when none is held.
    fn first_key(&self) -> (r: usize)
        requires
            self.wf(),
        ensures
            r == first_pressed(self@.keypad, 0),
    {
        let mut k: usize = 0;
        while k < KEY_COUNT
            invariant
                self.wf(),
                k <= KEY_COUNT,
                first_pressed(self@.keypad, 0) == first_pressed(self@.keypad, k as int),
            decreases KEY_COUNT - k,
        {
            if self.keypad[k] != 0 {
                return k;
            }
            k += 1;
        }
        k
    }

    /// LD Vx, K: takes the lowest held key, or rewinds to run again when none is held.
    pub fn op_fx0a(&mut self)
        requires
            old(self).wf(),
        ensures
            final(self).wf(),
            final(self)@ == wait_key_spec(old(self)@),
    {
        let x = self.x();
        let k = self.first_key();
        if k < KEY_COUNT {
            self.registers.set(x, k as u8);
            return;
        }
        self.pc = wrap_add16(self.pc, 65534);
    }

    /// LD DT, Vx.
    pub fn op_fx15(&mut self)
        requires
            old(self).wf(),
        ensures
            final(self).wf(),
            final(self)@ == (MachineState { delay_timer: old(self)@.v[x_of(old(self)@.opcode)], ..old(self)@ }),
    {
        let x = self.x();
        self.delay_timer = self.registers[x];
    }

    /// LD ST, Vx.
    pub fn op_fx18(&mut self)
        requires
            old(self).wf(),
        ensures
            final(self).wf(),
            final(self)@ == (MachineState { sound_timer: old(self)@.v[x_of(old(self)@.opcode)], ..old(self)@ }),
    {
        let x = self.x();
        self.sound_timer = self.registers[x];
    }

    /// ADD I, Vx: wraps at 16 bits.
    pub fn op_fx1e(&mut self)
        requires
            old(self).wf(),
        ensures
            final(self).wf(),
            final(self)@ == (MachineState { index: wrap16(old(self)@.index + old(self)@.v[x_of(old(self)@.opcode)]), ..old(self)@ }),
    {
        let x = self.x();
        self.index = wrap_add16(self.index, self.registers[x] as u16);
    }

    /// LD F, Vx: I points at the glyph of the digit in Vx.
    pub fn op_fx29(&mut self)
        requires
            old(self).wf(),
        ensures
            final(self).wf(),
            final(self)@ == (MachineState {
                index: (FONTSET_START_ADDRESS + 5 * old(self)@.v[x_of(old(self)@.opcode)]) as u16,
                ..old(self)@
            }),
    {
        let x = self.x();
        self.index = FONTSET_START_ADDRESS as u16 + 5 * self.registers[x] as u16;
    }

    /// LD B, Vx: the three decimal digits of Vx at I, I+1, I+2.
    pub fn op_fx33(&mut self) -> (r: Result<(), EmulError>)
        requires
            old(self).wf(),
        ensures
            final(self).wf(),
            outcome(old(self)@, final(self)@, r, bcd_spec(old(self)@)),
    {
        let x = self.x();
        let value = self.registers[x];
        let addr = self.index as usize;
        if addr + 3 > MEMORY_SIZE {
            return Err(EmulError::new(ErrorKind::OutOfBounds { addr, max: MEMORY_SIZE, size: 3 }, ErrorTopic::RamWrite));
        }
        let _ = self.memory.write_byte(addr, value / 100);
        let _ = self.memory.write_byte(addr + 1, value / 10 % 10);
        let _ = self.memory.write_byte(addr + 2, value % 10);
        Ok(())
    }

    /// LD [I], Vx: V0 to Vx stored from I on.
    pub fn op_fx55(&mut self) -> (r: Result<(), EmulError>)
        requires
            old(self).wf(),
        ensures
            final(self).wf(),
            outcome(old(self)@, final(self)@, r, store_regs_spec(old(self)@)),
    {
        let x = self.x();
        let mut regs: Vec<u8> = Vec::new();
        let mut i: usize = 0;
        while i <= x
            invariant
                self.wf(),
                x < 16,
                i <= x + 1,
                regs@ == self.registers@.take(i as int),
            decreases x + 1 - i,
        {
            regs.push(self.registers[i]);
            i += 1;
            assert(regs@ =~= self.registers@.take(i as int));
        }
        self.memory.write_block(self.index as usize, &regs)
    }

    /// LD Vx, [I]: V0 to Vx loaded from I on.
    pub fn op_fx65(&mut self) -> (r: Result<(), EmulError>)
        requires
            old(self).wf(),
        ensures
            final(self).wf(),
            outcome(old(self)@, final(self)@, r, load_regs_spec(old(self)@)),
    {
        let x = self.x();
        let start = self.index as usize;
        if start + x + 1 > MEMORY_SIZE {
            return Err(EmulError::new(ErrorKind::OutOfBounds { addr: start, max: MEMORY_SIZE, size: x + 1 }, ErrorTopic::RamRead));
        }
        let ghost before = self@;
        assert(before.v =~= Seq::new(16, |j: int| if j < 0 { before.ram[start + j] } else { before.v[j] }));
        let mut i: usize = 0;
        while i <= x
            invariant
                self.wf(),
                x < 16,
                start + x + 1 <= MEMORY_SIZE,
                start == before.index,
                i <= x + 1,
                self@ == (MachineState {
                    v: Seq::new(16, |j: int| if j < i { before.ram[start + j] } else { before.v[j] }),
                    ..before
                }),
            decreases x + 1 - i,
        {
            let b = self.memory.read_byte(start + i);
            if let Ok(b) = b {
                self.registers.set(i, b);
            }
            i += 1;
            assert(self.registers@ =~= Seq::new(16, |j: int| if j < i { before.ram[start + j] } else { before.v[j] }));
        }
        assert(self@.v =~= load_regs_spec(before).unwrap().v);
        Ok(())
    }
}

} // verus!
