use vstd::prelude::*;

use crate::errors::{out_of_bounds, EmulError, ErrorKind, ErrorTopic};
use crate::ram::{overlay, read_word_spec, word_of};

verus! {

pub const MEMORY_SIZE: usize = 4096;
pub const REGISTERS_COUNT: usize = 16;
pub const START_ADDRESS: usize = 0x200;
pub const STACK_LEVELS: usize = 16;
pub const KEY_COUNT: usize = 16;
pub const FONTSET_START_ADDRESS: usize = 0x50;
pub const VIDEO_WIDTH: usize = 64;
pub const VIDEO_HEIGHT: usize = 32;
/// The color of a lit pixel.
pub const COLOR: u32 = 0x00FF00FF;
/// The register that receives carries, borrows and collisions.
pub const FLAG: usize = 15;

/// The built-in glyphs 0 to F, five rows of one byte each.
pub open spec fn font_spec() -> Seq<u8> {
    seq![
        0xF0u8, 0x90, 0x90, 0x90, 0xF0,
        0x20, 0x60, 0x20, 0x20, 0x70,
        0xF0, 0x10, 0xF0, 0x80, 0xF0,
        0xF0, 0x10, 0xF0, 0x10, 0xF0,
        0x90, 0x90, 0xF0, 0x10, 0x10,
        0xF0, 0x80, 0xF0, 0x10, 0xF0,
        0xF0, 0x80, 0xF0, 0x90, 0xF0,
        0xF0, 0x10, 0x20, 0x40, 0x40,
        0xF0, 0x90, 0xF0, 0x90, 0xF0,
        0xF0, 0x90, 0xF0, 0x10, 0xF0,
        0xF0, 0x90, 0xF0, 0x90, 0x90,
        0xE0, 0x90, 0xE0, 0x90, 0xE0,
        0xF0, 0x80, 0x80, 0x80, 0xF0,
        0xE0, 0x90, 0x90, 0x90, 0xE0,
        0xF0, 0x80, 0xF0, 0x80, 0xF0,
        0xF0, 0x80, 0xF0, 0x80, 0x80,
    ]
}

/// The machine as the instructions see it.
pub struct MachineState {
    pub ram: Seq<u8>,
    pub video: Seq<u32>,
    pub v: Seq<u8>,
    pub stack: Seq<u16>,
    pub keypad: Seq<u8>,
    pub pc: u16,
    pub sp: u8,
    pub index: u16,
    pub opcode: u16,
    pub delay_timer: u8,
    pub sound_timer: u8,
}

/// The sizes every state keeps.
pub open spec fn state_wf(s: MachineState) -> bool {
    &&& s.ram.len() == MEMORY_SIZE
    &&& s.video.len() == VIDEO_WIDTH * VIDEO_HEIGHT
    &&& s.v.len() == REGISTERS_COUNT
    &&& s.stack.len() == STACK_LEVELS
    &&& s.keypad.len() == KEY_COUNT
    &&& s.sp <= STACK_LEVELS
}

/// The state at power-on: memory zero but for the font, the screen dark, every
/// register zero and the program counter at the load address.
pub open spec fn power_on() -> MachineState {
    MachineState {
        ram: overlay(Seq::new(MEMORY_SIZE as nat, |_i: int| 0u8), FONTSET_START_ADDRESS as int, font_spec()),
        video: Seq::new((VIDEO_WIDTH * VIDEO_HEIGHT) as nat, |_i: int| 0u32),
        v: Seq::new(REGISTERS_COUNT as nat, |_i: int| 0u8),
        stack: Seq::new(STACK_LEVELS as nat, |_i: int| 0u16),
        keypad: Seq::new(KEY_COUNT as nat, |_i: int| 0u8),
        pc: START_ADDRESS as u16,
        sp: 0,
        index: 0,
        opcode: 0,
        delay_timer: 0,
        sound_timer: 0,
    }
}

/// The state right after loading `rom`: power-on, with the program at the load address.
pub open spec fn loaded(rom: Seq<u8>) -> MachineState {
    MachineState { ram: overlay(power_on().ram, START_ADDRESS as int, rom), ..power_on() }
}

/// The dispatch key of an opcode: the families 0, 8 and E keep their low nibble, the
/// family F keeps its low byte, every other family is named by its top nibble alone.
pub open spec fn decode_spec(opcode: u16) -> u16 {
    let family = opcode / 4096;
    if family == 0 || family == 8 || family == 14 {
        opcode & 0xF00F
    } else if family == 15 {
        opcode & 0xF0FF
    } else {
        opcode & 0xF000
    }
}

pub open spec fn x_of(opcode: u16) -> int {
    (opcode / 256 % 16) as int
}

pub open spec fn y_of(opcode: u16) -> int {
    (opcode / 16 % 16) as int
}

pub open spec fn kk_of(opcode: u16) -> u8 {
    (opcode % 256) as u8
}

pub open spec fn nnn_of(opcode: u16) -> u16 {
    opcode % 4096
}

pub open spec fn n_of(opcode: u16) -> int {
    (opcode % 16) as int
}

/// A 16-bit value wrapped around.
pub open spec fn wrap16(n: int) -> u16 {
    (n % 65536) as u16
}

/// The program counter moved past the next instruction.
pub open spec fn skipped(s: MachineState) -> MachineState {
    MachineState { pc: wrap16(s.pc + 2), ..s }
}

/// The register `x` set to `value`.
pub open spec fn with_reg(s: MachineState, x: int, value: u8) -> MachineState {
    MachineState { v: s.v.update(x, value), ..s }
}

/// The flag register set first, then the register `x`, as the arithmetic instructions do.
pub open spec fn with_flag_then_reg(s: MachineState, flag: u8, x: int, value: u8) -> MachineState {
    MachineState { v: s.v.update(FLAG as int, flag).update(x, value), ..s }
}

pub open spec fn flag_of(b: bool) -> u8 {
    if b { 1 } else { 0 }
}

/// CLS.
pub open spec fn cls_spec(s: MachineState) -> MachineState {
    MachineState { video: Seq::new(s.video.len(), |_i: int| 0u32), ..s }
}

/// RET.
pub open spec fn ret_spec(s: MachineState) -> Result<MachineState, EmulError> {
    if s.sp == 0 {
        Err(EmulError { kind: ErrorKind::StackUnderflow, topic: ErrorTopic::Emulator })
    } else {
        Ok(MachineState { sp: (s.sp - 1) as u8, pc: s.stack[s.sp - 1], ..s })
    }
}

/// CALL nnn.
pub open spec fn call_spec(s: MachineState) -> Result<MachineState, EmulError> {
    if s.sp >= STACK_LEVELS {
        Err(EmulError { kind: ErrorKind::StackOverflow, topic: ErrorTopic::Emulator })
    } else {
        Ok(
            MachineState {
                stack: s.stack.update(s.sp as int, s.pc),
                sp: (s.sp + 1) as u8,
                pc: nnn_of(s.opcode),
                ..s
            },
        )
    }
}

/// The arithmetic and logic family 8xy_.
pub open spec fn alu_spec(s: MachineState, sub: u16) -> MachineState {
    let x = x_of(s.opcode);
    let vx = s.v[x];
    let vy = s.v[y_of(s.opcode)];
    if sub == 0 {
        with_reg(s, x, vy)
    } else if sub == 1 {
        with_reg(s, x, vx | vy)
    } else if sub == 2 {
        with_reg(s, x, vx & vy)
    } else if sub == 3 {
        with_reg(s, x, vx ^ vy)
    } else if sub == 4 {
        with_flag_then_reg(s, flag_of(vx + vy > 255), x, ((vx + vy) % 256) as u8)
    } else if sub == 5 {
        with_flag_then_reg(s, flag_of(vx >= vy), x, ((vx - vy + 256) % 256) as u8)
    } else if sub == 6 {
        with_flag_then_reg(s, vx % 2, x, vx / 2)
    } else if sub == 7 {
        with_flag_then_reg(s, flag_of(vy >= vx), x, ((vy - vx + 256) % 256) as u8)
    } else {
        with_flag_then_reg(s, vx / 128, x, ((vx * 2) % 256) as u8)
    }
}

/// The row of the sprite that covers pixel `p` when the sprite's corner is at `y0`.
pub open spec fn row_of(y0: int, p: int) -> int {
    (p / VIDEO_WIDTH as int - y0 + VIDEO_HEIGHT as int) % VIDEO_HEIGHT as int
}

/// The column of the sprite that covers pixel `p` when the sprite's corner is at `x0`.
pub open spec fn col_of(x0: int, p: int) -> int {
    (p % VIDEO_WIDTH as int - x0 + VIDEO_WIDTH as int) % VIDEO_WIDTH as int
}

/// The pixel that row `row`, column `col` of a sprite at `(x0, y0)` lands on; off-screen
/// parts wrap around.
pub open spec fn pixel_at(x0: int, y0: int, row: int, col: int) -> int {
    ((y0 + row) % VIDEO_HEIGHT as int) * VIDEO_WIDTH as int + (x0 + col) % VIDEO_WIDTH as int
}

/// Whether column `col` (0 the leftmost) of a sprite row is set.
pub open spec fn sprite_bit(b: u8, col: int) -> bool {
    b & (0x80u8 >> (col as u8)) != 0
}

/// Whether the `n`-row sprite at `index`, drawn at `(x0, y0)`, has a set bit over pixel `p`.
pub open spec fn covers(ram: Seq<u8>, index: int, x0: int, y0: int, n: int, p: int) -> bool {
    let row = row_of(y0, p);
    let col = col_of(x0, p);
    row < n && col < 8 && sprite_bit(ram[index + row], col)
}

/// The screen after XOR-ing the sprite onto it.
pub open spec fn drawn(video: Seq<u32>, ram: Seq<u8>, index: int, x0: int, y0: int, n: int) -> Seq<u32> {
    Seq::new(
        video.len(),
        |p: int|
            if covers(ram, index, x0, y0, n, p) {
                video[p] ^ COLOR
            } else {
                video[p]
            },
    )
}

/// Whether the sprite turns off a lit pixel.
pub open spec fn collides(video: Seq<u32>, ram: Seq<u8>, index: int, x0: int, y0: int, n: int) -> bool {
    exists|p: int| 0 <= p < video.len() && #[trigger] covers(ram, index, x0, y0, n, p) && video[p] == COLOR
}

/// DRW Vx, Vy, n.
pub open spec fn draw_spec(s: MachineState) -> Result<MachineState, EmulError> {
    let n = n_of(s.opcode);
    let x0 = (s.v[x_of(s.opcode)] % 64) as int;
    let y0 = (s.v[y_of(s.opcode)] % 32) as int;
    if s.index + n <= MEMORY_SIZE {
        Ok(
            MachineState {
                video: drawn(s.video, s.ram, s.index as int, x0, y0, n),
                v: s.v.update(FLAG as int, flag_of(collides(s.video, s.ram, s.index as int, x0, y0, n))),
                ..s
            },
        )
    } else {
        Err(out_of_bounds(ErrorTopic::RamRead, s.index as usize, MEMORY_SIZE, n as usize))
    }
}

/// Whether the logical key `key` is held down; keys past the keypad never are.
pub open spec fn key_down(s: MachineState, key: u8) -> bool {
    key < KEY_COUNT && s.keypad[key as int] != 0
}

/// The lowest held key from `from` on, or the keypad's size if there is none.
pub open spec fn first_pressed(keypad: Seq<u8>, from: int) -> int
    decreases keypad.len() - from,
{
    if from >= keypad.len() {
        keypad.len() as int
    } else if keypad[from] != 0 {
        from
    } else {
        first_pressed(keypad, from + 1)
    }
}

/// LD Vx, K: the lowest held key goes to Vx; with none held the instruction runs again.
pub open spec fn wait_key_spec(s: MachineState) -> MachineState {
    let k = first_pressed(s.keypad, 0);
    if k < s.keypad.len() {
        with_reg(s, x_of(s.opcode), k as u8)
    } else {
        MachineState { pc: wrap16(s.pc + 65534), ..s }
    }
}

/// LD B, Vx.
pub open spec fn bcd_spec(s: MachineState) -> Result<MachineState, EmulError> {
    let value = s.v[x_of(s.opcode)];
    let i = s.index as int;
    if i + 3 <= MEMORY_SIZE {
        Ok(
            MachineState {
                ram: s.ram.update(i, value / 100).update(i + 1, value / 10 % 10).update(i + 2, value % 10),
                ..s
            },
        )
    } else {
        Err(out_of_bounds(ErrorTopic::RamWrite, s.index as usize, MEMORY_SIZE, 3))
    }
}

/// LD [I], Vx.
pub open spec fn store_regs_spec(s: MachineState) -> Result<MachineState, EmulError> {
    let count = x_of(s.opcode) + 1;
    if s.index + count <= MEMORY_SIZE {
        Ok(MachineState { ram: overlay(s.ram, s.index as int, s.v.take(count)), ..s })
    } else {
        Err(out_of_bounds(ErrorTopic::RamWrite, s.index as usize, MEMORY_SIZE, count as usize))
    }
}

/// LD Vx, [I].
pub open spec fn load_regs_spec(s: MachineState) -> Result<MachineState, EmulError> {
    let count = x_of(s.opcode) + 1;
    if s.index + count <= MEMORY_SIZE {
        Ok(
            MachineState {
                v: Seq::new(s.v.len(), |j: int| if j < count { s.ram[s.index + j] } else { s.v[j] }),
                ..s
            },
        )
    } else {
        Err(out_of_bounds(ErrorTopic::RamRead, s.index as usize, MEMORY_SIZE, count as usize))
    }
}

/// The effect of the instruction in `s.opcode`; `rnd` is the random byte that RND draws.
pub open spec fn exec_spec(s: MachineState, rnd: u8) -> Result<MachineState, EmulError> {
    let op = s.opcode;
    let key = decode_spec(op);
    let x = x_of(op);
    let vx = s.v[x];
    let vy = s.v[y_of(op)];
    let kk = kk_of(op);
    if key == 0x0000 {
        Ok(cls_spec(s))
    } else if key == 0x000E {
        ret_spec(s)
    } else if key == 0x1000 {
        Ok(MachineState { pc: nnn_of(op), ..s })
    } else if key == 0x2000 {
        call_spec(s)
    } else if key == 0x3000 {
        Ok(if vx == kk { skipped(s) } else { s })
    } else if key == 0x4000 {
        Ok(if vx != kk { skipped(s) } else { s })
    } else if key == 0x5000 {
        Ok(if vx == vy { skipped(s) } else { s })
    } else if key == 0x6000 {
        Ok(with_reg(s, x, kk))
    } else if key == 0x7000 {
        Ok(with_reg(s, x, ((vx + kk) % 256) as u8))
    } else if key == 0x8000 || key == 0x8001 || key == 0x8002 || key == 0x8003 || key == 0x8004
        || key == 0x8005 || key == 0x8006 || key == 0x8007 || key == 0x800E {
        Ok(alu_spec(s, key % 16))
    } else if key == 0x9000 {
        Ok(if vx != vy { skipped(s) } else { s })
    } else if key == 0xA000 {
        Ok(MachineState { index: nnn_of(op), ..s })
    } else if key == 0xB000 {
        Ok(MachineState { pc: (s.v[0] + nnn_of(op)) as u16, ..s })
    } else if key == 0xC000 {
        Ok(with_reg(s, x, rnd & kk))
    } else if key == 0xD000 {
        draw_spec(s)
    } else if key == 0xE00E {
        Ok(if key_down(s, vx) { skipped(s) } else { s })
    } else if key == 0xE001 {
        Ok(if !key_down(s, vx) { skipped(s) } else { s })
    } else if key == 0xF007 {
        Ok(with_reg(s, x, s.delay_timer))
    } else if key == 0xF00A {
        Ok(wait_key_spec(s))
    } else if key == 0xF015 {
        Ok(MachineState { delay_timer: vx, ..s })
    } else if key == 0xF018 {
        Ok(MachineState { sound_timer: vx, ..s })
    } else if key == 0xF01E {
        Ok(MachineState { index: wrap16(s.index + vx), ..s })
    } else if key == 0xF029 {
        Ok(MachineState { index: (FONTSET_START_ADDRESS + 5 * vx) as u16, ..s })
    } else if key == 0xF033 {
        bcd_spec(s)
    } else if key == 0xF055 {
        store_regs_spec(s)
    } else if key == 0xF065 {
        load_regs_spec(s)
    } else {
        Err(EmulError { kind: ErrorKind::UnknownInstruction { opcode: op }, topic: ErrorTopic::Emulator })
    }
}

/// The state after fetching the instruction at the program counter, or the fetch error.
pub open spec fn fetch_spec(s: MachineState) -> Result<MachineState, EmulError> {
    match read_word_spec(s.ram, s.pc as usize) {
        Ok(w) => Ok(MachineState { opcode: w, pc: wrap16(s.pc + 2), ..s }),
        Err(e) => Err(e),
    }
}

/// Each timer, if running, one step closer to zero.
pub open spec fn tick_spec(s: MachineState) -> MachineState {
    MachineState {
        delay_timer: if s.delay_timer > 0 { (s.delay_timer - 1) as u8 } else { 0 },
        sound_timer: if s.sound_timer > 0 { (s.sound_timer - 1) as u8 } else { 0 },
        ..s
    }
}

/// One cycle: fetch, execute, then one timer tick.
pub open spec fn cycle_spec(s: MachineState, rnd: u8) -> Result<MachineState, EmulError> {
    match fetch_spec(s) {
        Ok(f) => match exec_spec(f, rnd) {
            Ok(t) => Ok(tick_spec(t)),
            Err(e) => Err(e),
        },
        Err(e) => Err(e),
    }
}

/// Whether the instruction with this dispatch key changes the screen.
pub open spec fn touches_video(key: u16) -> bool {
    key == 0x0000 || key == 0xD000
}

} // verus!

verus! {

/// The instruction word stored at `addr`, `addr + 1`.
pub open spec fn instr_at(ram: Seq<u8>, addr: int) -> u16 {
    word_of(ram[addr], ram[addr + 1])
}

/// A call followed by a return lands on the instruction right after the call, with the
/// stack pointer back where it was.
pub proof fn lemma_call_then_ret(s: MachineState, rnd1: u8, rnd2: u8)
    requires
        state_wf(s),
        s.sp < STACK_LEVELS,
        s.pc + 1 < MEMORY_SIZE,
        decode_spec(instr_at(s.ram, s.pc as int)) == 0x2000,
        nnn_of(instr_at(s.ram, s.pc as int)) + 1 < MEMORY_SIZE,
        decode_spec(instr_at(s.ram, nnn_of(instr_at(s.ram, s.pc as int)) as int)) == 0x000E,
    ensures
        cycle_spec(s, rnd1) is Ok,
        cycle_spec(cycle_spec(s, rnd1).unwrap(), rnd2) is Ok,
        cycle_spec(cycle_spec(s, rnd1).unwrap(), rnd2).unwrap().pc == s.pc + 2,
        cycle_spec(cycle_spec(s, rnd1).unwrap(), rnd2).unwrap().sp == s.sp,
{
}

/// With no key held, waiting for a key leaves the program counter where the cycle found
/// it; with one held, the lowest held key goes to Vx and the program moves on.
pub proof fn lemma_wait_key(s: MachineState, rnd: u8)
    requires
        state_wf(s),
        s.pc + 1 < MEMORY_SIZE,
        decode_spec(instr_at(s.ram, s.pc as int)) == 0xF00A,
    ensures
        cycle_spec(s, rnd) matches Ok(t) && {
            let w = instr_at(s.ram, s.pc as int);
            let k = first_pressed(s.keypad, 0);
            &&& (forall|i: int| 0 <= i < KEY_COUNT ==> s.keypad[i] == 0) ==> t.pc == s.pc
            &&& k < KEY_COUNT ==> t.pc == s.pc + 2 && t.v[x_of(w)] == k
        },
{
    lemma_first_pressed_is_lowest(s.keypad, 0);
    if forall|i: int| 0 <= i < KEY_COUNT ==> s.keypad[i] == 0 {
        lemma_first_pressed_none(s.keypad, 0);
    }
}

/// With no key held from `from` on, the search finds none.
pub proof fn lemma_first_pressed_none(keypad: Seq<u8>, from: int)
    requires
        0 <= from,
        forall|i: int| from <= i < keypad.len() ==> keypad[i] == 0,
    ensures
        first_pressed(keypad, from) == keypad.len(),
    decreases keypad.len() - from,
{
    if from < keypad.len() {
        lemma_first_pressed_none(keypad, from + 1);
    }
}

/// The lowest held key is a held key, and no key below it is held.
pub proof fn lemma_first_pressed_is_lowest(keypad: Seq<u8>, from: int)
    requires
        0 <= from <= keypad.len(),
    ensures
        from <= first_pressed(keypad, from) <= keypad.len(),
        first_pressed(keypad, from) < keypad.len() ==> keypad[first_pressed(keypad, from)] != 0,
        forall|i: int| from <= i < first_pressed(keypad, from) ==> keypad[i] == 0,
    decreases keypad.len() - from,
{
    if from < keypad.len() && keypad[from] == 0 {
        lemma_first_pressed_is_lowest(keypad, from + 1);
    }
}

/// Drawing the same sprite twice at the same place gives back the screen it started
/// from; and if the sprite covered any dark pixel, the second draw reports a collision.
/// (The sprite's position must not be read from the flag register, which the first draw
/// overwrites.)
pub proof fn lemma_draw_twice(s: MachineState)
    requires
        state_wf(s),
        s.index + n_of(s.opcode) <= MEMORY_SIZE,
        x_of(s.opcode) != FLAG,
        y_of(s.opcode) != FLAG,
    ensures
        draw_spec(s) is Ok,
        draw_spec(draw_spec(s).unwrap()) is Ok,
        draw_spec(draw_spec(s).unwrap()).unwrap().video == s.video,
        ({
            let s2 = draw_spec(draw_spec(s).unwrap()).unwrap();
            let x0 = (s.v[x_of(s.opcode)] % 64) as int;
            let y0 = (s.v[y_of(s.opcode)] % 32) as int;
            (exists|p: int| 0 <= p < s.video.len() && #[trigger] covers(s.ram, s.index as int, x0, y0, n_of(s.opcode), p) && s.video[p] == 0)
                ==> s2.v[FLAG as int] == 1
        }),
{
    let s1 = draw_spec(s).unwrap();
    let s2 = draw_spec(s1).unwrap();
    let x0 = (s.v[x_of(s.opcode)] % 64) as int;
    let y0 = (s.v[y_of(s.opcode)] % 32) as int;
    let n = n_of(s.opcode);
    assert forall|p: int| 0 <= p < s.video.len() implies #[trigger] s2.video[p] == s.video[p] by {
        let a = s.video[p];
        assert((a ^ COLOR) ^ COLOR == a) by (bit_vector);
    }
    assert(s2.video =~= s.video);
    if exists|p: int| 0 <= p < s.video.len() && #[trigger] covers(s.ram, s.index as int, x0, y0, n, p) && s.video[p] == 0 {
        let p = choose|p: int| 0 <= p < s.video.len() && #[trigger] covers(s.ram, s.index as int, x0, y0, n, p) && s.video[p] == 0;
        assert(0u32 ^ COLOR == COLOR) by (bit_vector);
        assert(s1.video[p] == COLOR);
        assert(collides(s1.video, s1.ram, s1.index as int, x0, y0, n));
    }
}

/// Right after a load the registers, stack pointer and timers are zero, the program
/// counter is at the load address, and the first fetch reads the program's first two
/// bytes as one big-endian instruction.
pub proof fn lemma_load_then_fetch(rom: Seq<u8>)
    requires
        2 <= rom.len() <= MEMORY_SIZE - START_ADDRESS,
    ensures
        state_wf(loaded(rom)),
        loaded(rom).pc == START_ADDRESS,
        loaded(rom).sp == 0,
        loaded(rom).index == 0,
        loaded(rom).delay_timer == 0,
        loaded(rom).sound_timer == 0,
        forall|i: int| 0 <= i < REGISTERS_COUNT ==> loaded(rom).v[i] == 0,
        fetch_spec(loaded(rom)) matches Ok(f) && f.opcode == word_of(rom[0], rom[1]) && f.pc == START_ADDRESS + 2,
{
}

} // verus!
