use oxidemu::chip8::Chip8;
use oxidemu::emulator::{cycles_for_interval, EmulMgr};
use oxidemu::errors::ErrorKind;

fn machine(bytes: &[u8]) -> Chip8 {
    let mut c8 = Chip8::new();
    c8.load_rom(&bytes.to_vec()).unwrap();
    c8
}

#[test]
fn empty_manager_reports_not_initialized() {
    let mut mgr: EmulMgr<Chip8> = EmulMgr::default();
    assert_eq!(mgr.cycle().unwrap_err().kind, ErrorKind::NotInitialized);
    assert_eq!(mgr.video_buffer().unwrap_err().kind, ErrorKind::NotInitialized);
    assert_eq!(mgr.resolution().unwrap_err().kind, ErrorKind::NotInitialized);
    assert_eq!(mgr.cycles_in_sec().unwrap_err().kind, ErrorKind::NotInitialized);
    mgr.set_pause(true);
    assert!(!mgr.is_paused());
    mgr.process_input(1, true);
    assert_eq!(mgr.version(), 0);
}

#[test]
fn replacing_the_machine_bumps_the_version() {
    let mut mgr = EmulMgr::default();
    mgr.set_emulator(machine(&[0x60, 0x01]));
    assert_eq!(mgr.version(), 1);
    assert_eq!(mgr.resolution().unwrap(), [64, 32]);
    assert_eq!(mgr.cycles_in_sec().unwrap(), 500);
    assert_eq!(mgr.video_buffer().unwrap().len(), 8192);
    mgr.set_emulator(machine(&[0x60, 0x02]));
    assert_eq!(mgr.version(), 2);
}

#[test]
fn paused_manager_does_not_advance() {
    let mut mgr = EmulMgr::default();
    mgr.set_emulator(machine(&[0x71, 0x01, 0x71, 0x01, 0xF1, 0x29, 0xD0, 0x05]));
    assert_eq!(mgr.cycle().unwrap().total_cycle_count, 1);
    mgr.set_pause(true);
    assert!(mgr.is_paused());
    let before = mgr.video_buffer().unwrap();
    for _ in 0..5 {
        assert_eq!(mgr.cycle().unwrap_err().kind, ErrorKind::NotInitialized);
    }
    assert_eq!(mgr.video_buffer().unwrap(), before);
    mgr.set_pause(false);
    assert_eq!(mgr.cycle().unwrap().total_cycle_count, 2);
    assert_eq!(mgr.cycle().unwrap().total_cycle_count, 3);
    let r = mgr.cycle().unwrap();
    assert_eq!(r.total_cycle_count, 4);
    assert!(r.video_buff_changed);
    assert_ne!(mgr.video_buffer().unwrap(), before);
}

#[test]
fn manager_forwards_keys() {
    let mut mgr = EmulMgr::default();
    mgr.set_emulator(machine(&[0xF2, 0x0A, 0xF2, 0x29, 0xD0, 0x05]));
    mgr.cycle().unwrap();
    mgr.process_input(4, true);
    mgr.cycle().unwrap();
    mgr.process_input(4, false);
    mgr.cycle().unwrap();
    assert!(mgr.cycle().unwrap().video_buff_changed);
    let bytes = mgr.video_buffer().unwrap();
    assert_eq!(&bytes[0..4], &[0x00, 0xFF, 0x00, 0xFF]);
    assert_eq!(&bytes[4..8], &[0, 0, 0, 0]);
    assert_eq!(&bytes[12..16], &[0x00, 0xFF, 0x00, 0xFF]);
}

#[test]
fn cycles_due_for_an_interval() {
    assert_eq!(cycles_for_interval(1000, 500), 500);
    assert_eq!(cycles_for_interval(16, 500), 8);
    assert_eq!(cycles_for_interval(3, 500), 1);
    assert_eq!(cycles_for_interval(1, 500), 0);
    assert_eq!(cycles_for_interval(u64::MAX, u64::MAX), u64::MAX);
}
