use oxidemu::chip8::Chip8;
use oxidemu::emulator::{CycleResult, Emulator};
use oxidemu::errors::{ErrorKind, ErrorTopic};
use oxidemu::input::{InputDevice, InputKey, InputProcessor};
use oxidemu::interpreter::{decode, Interpreter};
use oxidemu::machine::{COLOR, START_ADDRESS};

fn rom(words: &[u16]) -> Vec<u8> {
    let mut out = Vec::new();
    for w in words {
        out.push((w >> 8) as u8);
        out.push((w & 0xFF) as u8);
    }
    out
}

fn loaded(words: &[u16]) -> Chip8 {
    let mut c8 = Chip8::new();
    c8.load_rom(&rom(words)).unwrap();
    c8
}

fn exec(core: &mut Interpreter, opcode: u16) {
    core.set_opcode(opcode);
    core.exec_instruction(0).unwrap();
}

#[test]
fn test_op_5xy0() {
    let mut c8 = Chip8::new();
    let start_addr = START_ADDRESS as u16;
    let core = c8.interpreter_mut();
    core.set_register(1, 2);
    core.set_register(2, 5);
    core.set_opcode(0x5120);
    core.exec_instruction(0).unwrap();
    assert_eq!(core.pc(), start_addr);

    core.set_register(1, 5);
    core.exec_instruction(0).unwrap();
    assert_eq!(core.pc(), start_addr + 2);
}

#[test]
fn test_op_8xy4() {
    let mut c8 = Chip8::new();
    let core = c8.interpreter_mut();
    core.set_register(1, 250);
    core.set_register(2, 10);
    exec(core, 0x8124);
    assert_eq!(core.register(1), Some(4));
    assert_eq!(core.register(15), Some(1));
    core.set_register(1, 1);
    core.set_register(2, 1);
    exec(core, 0x8124);
    assert_eq!(core.register(1), Some(2));
    assert_eq!(core.register(15), Some(0));
}

#[test]
fn sub_flags_no_borrow() {
    let mut core = Interpreter::new();
    core.set_register(1, 5);
    core.set_register(2, 3);
    exec(&mut core, 0x8125);
    assert_eq!(core.register(1), Some(2));
    assert_eq!(core.register(15), Some(1));
    core.set_register(1, 3);
    core.set_register(2, 5);
    exec(&mut core, 0x8125);
    assert_eq!(core.register(1), Some(254));
    assert_eq!(core.register(15), Some(0));
}

#[test]
fn subn_shifts_and_logic() {
    let mut core = Interpreter::new();
    core.set_register(1, 3);
    core.set_register(2, 5);
    exec(&mut core, 0x8127);
    assert_eq!(core.register(1), Some(2));
    assert_eq!(core.register(15), Some(1));
    core.set_register(1, 6);
    exec(&mut core, 0x8127);
    assert_eq!(core.register(1), Some(255));
    assert_eq!(core.register(15), Some(0));
    core.set_register(3, 0x81);
    exec(&mut core, 0x8306);
    assert_eq!(core.register(3), Some(0x40));
    assert_eq!(core.register(15), Some(1));
    core.set_register(3, 0x81);
    exec(&mut core, 0x830E);
    assert_eq!(core.register(3), Some(0x02));
    assert_eq!(core.register(15), Some(1));
    core.set_register(4, 0b1100);
    core.set_register(5, 0b1010);
    exec(&mut core, 0x8451);
    assert_eq!(core.register(4), Some(0b1110));
    exec(&mut core, 0x8452);
    assert_eq!(core.register(4), Some(0b1010));
    exec(&mut core, 0x8453);
    assert_eq!(core.register(4), Some(0));
    exec(&mut core, 0x8450);
    assert_eq!(core.register(4), Some(0b1010));
}

#[test]
fn add_immediate_wraps_without_flag() {
    let mut core = Interpreter::new();
    core.set_register(15, 9);
    exec(&mut core, 0x60FF);
    exec(&mut core, 0x7002);
    assert_eq!(core.register(0), Some(1));
    assert_eq!(core.register(15), Some(9));
}

#[test]
fn decode_masks() {
    assert_eq!(decode(0x00E0), 0x0000);
    assert_eq!(decode(0x00EE), 0x000E);
    assert_eq!(decode(0x1234), 0x1000);
    assert_eq!(decode(0x8014), 0x8004);
    assert_eq!(decode(0x8AB4), 0x8004);
    assert_eq!(decode(0xF033), 0xF033);
    assert_eq!(decode(0xE19E), 0xE00E);
    assert_eq!(decode(0x5121), 0x5000);
}

#[test]
fn skips_compare_registers_and_immediates() {
    let mut core = Interpreter::new();
    core.set_register(1, 7);
    exec(&mut core, 0x3107);
    assert_eq!(core.pc(), 0x202);
    exec(&mut core, 0x3108);
    assert_eq!(core.pc(), 0x202);
    exec(&mut core, 0x4108);
    assert_eq!(core.pc(), 0x204);
    exec(&mut core, 0x9120);
    assert_eq!(core.pc(), 0x206);
    core.set_register(2, 7);
    exec(&mut core, 0x9120);
    assert_eq!(core.pc(), 0x206);
}

#[test]
fn call_then_ret() {
    let mut c8 = loaded(&[0x2206, 0x0000, 0x0000, 0x00EE]);
    let r = c8.run_cycle(0).unwrap();
    assert_eq!(c8.interpreter().pc(), 0x206);
    assert_eq!(c8.interpreter().sp(), 1);
    assert_eq!(r.total_cycle_count, 1);
    c8.run_cycle(0).unwrap();
    assert_eq!(c8.interpreter().pc(), 0x202);
    assert_eq!(c8.interpreter().sp(), 0);
}

#[test]
fn stack_overflow_halts_the_machine() {
    let mut c8 = loaded(&[0x2200]);
    for _ in 0..16 {
        c8.run_cycle(0).unwrap();
    }
    let e = c8.run_cycle(0).unwrap_err();
    assert_eq!(e.kind, ErrorKind::StackOverflow);
    assert_eq!(c8.interpreter().sp(), 16);
    assert_eq!(c8.interpreter().pc(), 0x200);
    assert_eq!(c8.run_cycle(0).unwrap_err().kind, ErrorKind::StackOverflow);
}

#[test]
fn return_on_empty_stack_underflows() {
    let mut c8 = loaded(&[0x00EE]);
    let e = c8.run_cycle(0).unwrap_err();
    assert_eq!(e.kind, ErrorKind::StackUnderflow);
    assert_eq!(e.topic, ErrorTopic::Emulator);
    assert_eq!(c8.interpreter().pc(), 0x200);
}

#[test]
fn unknown_instruction_is_reported() {
    let mut c8 = loaded(&[0xE0FF]);
    let e = c8.run_cycle(0).unwrap_err();
    assert_eq!(e.kind, ErrorKind::UnknownInstruction { opcode: 0xE0FF });
}

#[test]
fn fetch_past_memory_fails() {
    let mut c8 = loaded(&[0x1FFF]);
    c8.run_cycle(0).unwrap();
    let e = c8.run_cycle(0).unwrap_err();
    assert_eq!(e.kind, ErrorKind::OutOfBounds { addr: 0xFFF, max: 4096, size: 2 });
}

#[test]
fn machine_without_program_does_not_run() {
    let mut c8 = Chip8::new();
    let e = c8.run_cycle(0).unwrap_err();
    assert_eq!(e.kind, ErrorKind::NotInitialized);
    assert_eq!(c8.interpreter().pc(), 0x200);
}

#[test]
fn oversized_program_is_refused() {
    let mut c8 = loaded(&[0x6005]);
    c8.run_cycle(0).unwrap();
    let e = c8.load_rom(&vec![0u8; 4096 - 0x200 + 1]).unwrap_err();
    assert_eq!(e.kind, ErrorKind::OutOfBounds { addr: 0x200, max: 4096, size: 3585 });
    assert_eq!(c8.interpreter().register(0), Some(5));
    assert!(c8.load_rom(&vec![0u8; 4096 - 0x200]).is_ok());
}

#[test]
fn load_resets_and_first_fetch_reads_program() {
    let mut c8 = loaded(&[0x6A07, 0xF015, 0x2300]);
    c8.run_cycle(0).unwrap();
    c8.run_cycle(0).unwrap();
    c8.run_cycle(0).unwrap();
    assert_eq!(c8.interpreter().register(10), Some(7));
    c8.load_rom(&rom(&[0x6123])).unwrap();
    let core = c8.interpreter();
    assert_eq!(core.pc(), 0x200);
    assert_eq!(core.sp(), 0);
    assert_eq!(core.index(), 0);
    assert_eq!(core.delay_timer(), 0);
    assert_eq!(core.sound_timer(), 0);
    for i in 0..16 {
        assert_eq!(core.register(i), Some(0));
    }
    assert_eq!(core.read_memory(0x50), Ok(0xF0));
    let r = c8.run_cycle(0).unwrap();
    assert_eq!(r.total_cycle_count, 1);
    assert_eq!(c8.interpreter().opcode(), 0x6123);
    assert_eq!(c8.interpreter().register(1), Some(0x23));
}

#[test]
fn timers_tick_once_per_cycle() {
    let mut c8 = loaded(&[0x6005, 0xF015, 0xF018, 0xF107]);
    c8.run_cycle(0).unwrap();
    c8.run_cycle(0).unwrap();
    assert_eq!(c8.interpreter().delay_timer(), 4);
    c8.run_cycle(0).unwrap();
    assert_eq!(c8.interpreter().delay_timer(), 3);
    assert_eq!(c8.interpreter().sound_timer(), 4);
    c8.run_cycle(0).unwrap();
    assert_eq!(c8.interpreter().register(1), Some(3));
    assert_eq!(c8.interpreter().delay_timer(), 2);
}

#[test]
fn draw_twice_restores_screen_and_collides() {
    let mut c8 = loaded(&[0x6000, 0xF029, 0xD015, 0xD015]);
    c8.run_cycle(0).unwrap();
    c8.run_cycle(0).unwrap();
    assert_eq!(c8.interpreter().index(), 0x50);
    let r = c8.run_cycle(0).unwrap();
    assert!(r.video_buff_changed);
    let core = c8.interpreter();
    assert_eq!(core.register(15), Some(0));
    for x in 0..4 {
        assert_eq!(core.pixel(x), Some(COLOR));
    }
    assert_eq!(core.pixel(4), Some(0));
    assert_eq!(core.pixel(64), Some(COLOR));
    assert_eq!(core.pixel(65), Some(0));
    c8.run_cycle(0).unwrap();
    let core = c8.interpreter();
    assert_eq!(core.register(15), Some(1));
    for p in 0..2048 {
        assert_eq!(core.pixel(p), Some(0));
    }
}

#[test]
fn draw_wraps_around_the_edges() {
    let mut core = Interpreter::new();
    core.set_register(0, 62 + 64);
    core.set_register(1, 31);
    exec(&mut core, 0xF229);
    exec(&mut core, 0xD012);
    assert_eq!(core.pixel(31 * 64 + 62), Some(COLOR));
    assert_eq!(core.pixel(31 * 64 + 63), Some(COLOR));
    assert_eq!(core.pixel(31 * 64), Some(COLOR));
    assert_eq!(core.pixel(31 * 64 + 1), Some(COLOR));
    assert_eq!(core.pixel(31 * 64 + 2), Some(0));
    assert_eq!(core.pixel(62), Some(COLOR));
    assert_eq!(core.pixel(0), Some(0));
    assert_eq!(core.pixel(1), Some(COLOR));
    assert_eq!(core.pixel(63), Some(0));
    assert_eq!(core.pixel(2048), None);
}

#[test]
fn draw_past_memory_fails_and_changes_nothing() {
    let mut core = Interpreter::new();
    exec(&mut core, 0xAFFE);
    core.set_opcode(0xD015);
    let e = core.exec_instruction(0).unwrap_err();
    assert_eq!(e.kind, ErrorKind::OutOfBounds { addr: 0xFFE, max: 4096, size: 5 });
    assert_eq!(e.topic, ErrorTopic::RamRead);
    assert_eq!(core.pixel(0), Some(0));
}

#[test]
fn clear_screen_turns_pixels_off() {
    let mut c8 = loaded(&[0xF029, 0xD005, 0x00E0]);
    c8.run_cycle(0).unwrap();
    c8.run_cycle(0).unwrap();
    assert_eq!(c8.interpreter().pixel(0), Some(COLOR));
    let r = c8.run_cycle(0).unwrap();
    assert!(r.video_buff_changed);
    assert_eq!(c8.interpreter().pixel(0), Some(0));
}

#[test]
fn video_export_is_big_endian_bytes() {
    let mut c8 = loaded(&[0xF029, 0xD005]);
    c8.run_cycle(0).unwrap();
    c8.run_cycle(0).unwrap();
    let bytes = Emulator::video_buffer(&c8);
    assert_eq!(bytes.len(), 4 * 64 * 32);
    assert_eq!(&bytes[0..4], &[0x00, 0xFF, 0x00, 0xFF]);
    assert_eq!(&bytes[16..20], &[0, 0, 0, 0]);
    assert_eq!(Emulator::resolution(&c8), [64, 32]);
    assert_eq!(Emulator::cycles_in_sec(&c8), 500);
}

#[test]
fn wait_for_key_repeats_until_pressed() {
    let mut c8 = loaded(&[0xF30A]);
    c8.run_cycle(0).unwrap();
    assert_eq!(c8.interpreter().pc(), 0x200);
    c8.run_cycle(0).unwrap();
    assert_eq!(c8.interpreter().pc(), 0x200);
    c8.set_key(7, true);
    c8.set_key(9, true);
    c8.run_cycle(0).unwrap();
    assert_eq!(c8.interpreter().register(3), Some(7));
    assert_eq!(c8.interpreter().pc(), 0x202);
}

#[test]
fn key_skips_follow_the_keypad() {
    let mut c8 = loaded(&[0x6105, 0xE19E, 0xE1A1, 0x0000, 0xE19E]);
    c8.run_cycle(0).unwrap();
    c8.run_cycle(0).unwrap();
    assert_eq!(c8.interpreter().pc(), 0x204);
    c8.run_cycle(0).unwrap();
    assert_eq!(c8.interpreter().pc(), 0x208);
    InputProcessor::process_input(&mut c8, InputKey::new(InputDevice::Keyboard(0), 5, true));
    c8.run_cycle(0).unwrap();
    assert_eq!(c8.interpreter().pc(), 0x20C);
    Emulator::process_input(&mut c8, 5, false);
    Emulator::process_input(&mut c8, 99, true);
    let core = c8.interpreter_mut();
    core.set_register(1, 99);
    exec(core, 0xE19E);
    assert_eq!(core.pc(), 0x20C);
}

#[test]
fn jumps_index_and_font() {
    let mut core = Interpreter::new();
    exec(&mut core, 0x1ABC);
    assert_eq!(core.pc(), 0xABC);
    exec(&mut core, 0x60FF);
    exec(&mut core, 0xBFFF);
    assert_eq!(core.pc(), 0xFFF + 0xFF);
    exec(&mut core, 0xA123);
    assert_eq!(core.index(), 0x123);
    exec(&mut core, 0xF01E);
    assert_eq!(core.index(), 0x123 + 0xFF);
    exec(&mut core, 0xAFFF);
    exec(&mut core, 0xF01E);
    assert_eq!(core.index(), 0xFFF + 0xFF);
    exec(&mut core, 0x640A);
    exec(&mut core, 0xF429);
    assert_eq!(core.index(), 0x50 + 50);
}

#[test]
fn bcd_and_register_block_transfers() {
    let mut core = Interpreter::new();
    exec(&mut core, 0x63EA);
    exec(&mut core, 0xA300);
    exec(&mut core, 0xF333);
    assert_eq!(core.read_memory(0x300), Ok(2));
    assert_eq!(core.read_memory(0x301), Ok(3));
    assert_eq!(core.read_memory(0x302), Ok(4));
    exec(&mut core, 0x6011);
    exec(&mut core, 0x6122);
    exec(&mut core, 0x6233);
    exec(&mut core, 0xA400);
    exec(&mut core, 0xF155);
    assert_eq!(core.read_memory(0x400), Ok(0x11));
    assert_eq!(core.read_memory(0x401), Ok(0x22));
    assert_eq!(core.read_memory(0x402), Ok(0));
    core.write_memory(0x402, 0x99).unwrap();
    exec(&mut core, 0xF265);
    assert_eq!(core.register(0), Some(0x11));
    assert_eq!(core.register(2), Some(0x99));
    assert_eq!(core.register(3), Some(0xEA));
    exec(&mut core, 0xAFFE);
    core.set_opcode(0xF333);
    let e = core.exec_instruction(0).unwrap_err();
    assert_eq!(e.kind, ErrorKind::OutOfBounds { addr: 0xFFE, max: 4096, size: 3 });
    core.set_opcode(0xF255);
    let e = core.exec_instruction(0).unwrap_err();
    assert_eq!(e.kind, ErrorKind::OutOfBounds { addr: 0xFFE, max: 4096, size: 3 });
    assert_eq!(e.topic, ErrorTopic::RamWrite);
    core.set_opcode(0xF165);
    assert!(core.exec_instruction(0).is_ok());
}

#[test]
fn random_byte_is_masked() {
    let mut core = Interpreter::new();
    core.set_opcode(0xC50F);
    core.exec_instruction(0xAB).unwrap();
    assert_eq!(core.register(5), Some(0x0B));
    core.set_opcode(0xC500);
    core.exec_instruction(0xFF).unwrap();
    assert_eq!(core.register(5), Some(0));
}

#[test]
fn random_instruction_draws_fresh_bytes() {
    let words: Vec<u16> = vec![0xC0FF; 64];
    let mut c8 = loaded(&words);
    let mut seen = std::collections::HashSet::new();
    for _ in 0..64 {
        let r: CycleResult = c8.do_cycle().unwrap();
        assert!(!r.video_buff_changed);
        seen.insert(c8.interpreter().register(0).unwrap());
    }
    assert!(seen.len() > 1);
}

#[test]
fn cycle_report_counts_instructions() {
    let mut c8 = loaded(&[0x6001, 0x6102, 0x6203]);
    let r = Emulator::cycle(&mut c8).unwrap();
    assert_eq!(r.last_cycle_count, 1);
    assert_eq!(r.total_cycle_count, 1);
    assert!(!r.video_buff_changed);
    let r = Emulator::cycle(&mut c8).unwrap();
    assert_eq!(r.total_cycle_count, 2);
}
