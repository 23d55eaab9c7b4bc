use oxidemu::bus::{Readable, Writable};
use oxidemu::errors::{ErrorKind, ErrorTopic};
use oxidemu::ram::{Memory, Ram};

#[test]
fn write_out_of_bounds() {
    let mut m = Memory::new(100);
    let wr = m.write_byte(200, 3);
    match wr {
        Ok(_) => panic!("Write is ok"),
        Err(err) => assert!(matches!(err.kind, ErrorKind::OutOfBounds { .. })),
    }
}

#[test]
fn read_out_of_bounds() {
    let memory = Memory::new(100);
    let rd = memory.read_byte(150);
    match rd {
        Ok(_) => panic!("Read is successful but should not be"),
        Err(err) => assert!(matches!(err.kind, ErrorKind::OutOfBounds { .. })),
    }
}

#[test]
fn read_and_write() {
    let mut memory = Memory::new(100);
    let data = 3u8;
    let addr = 55;
    let wr = memory.write_byte(addr, data);
    match wr {
        Ok(_) => {}
        Err(err) => panic!("Cannot write: {:?}", err),
    }
    let rd = memory.read_byte(addr);
    match rd {
        Ok(b) => assert_eq!(b, data),
        Err(err) => panic!("Cannot read: {:?}", err),
    }
}

#[test]
fn out_of_bounds_reports_address_size_and_width() {
    let mut m = Ram::new(100);
    let e = m.write_byte(100, 1).unwrap_err();
    assert_eq!(e.kind, ErrorKind::OutOfBounds { addr: 100, max: 100, size: 1 });
    assert_eq!(e.topic, ErrorTopic::RamWrite);
    let e = m.read_byte(100).unwrap_err();
    assert_eq!(e.kind, ErrorKind::OutOfBounds { addr: 100, max: 100, size: 1 });
    assert_eq!(e.topic, ErrorTopic::RamRead);
    let e = m.read_word(99).unwrap_err();
    assert_eq!(e.kind, ErrorKind::OutOfBounds { addr: 99, max: 100, size: 2 });
    assert_eq!(m.read_byte(99), Ok(0));
}

#[test]
fn every_address_reads_back_what_was_written() {
    let mut m = Ram::new(16);
    for a in 0..16usize {
        m.write_byte(a, (a as u8) * 7 + 1).unwrap();
    }
    for a in 0..16usize {
        assert_eq!(m.read_byte(a), Ok((a as u8) * 7 + 1));
    }
}

#[test]
fn word_is_big_endian() {
    let mut m = Ram::new(8);
    m.write_byte(2, 0x12).unwrap();
    m.write_byte(3, 0x34).unwrap();
    assert_eq!(m.read_word(2), Ok(0x1234));
    let hi = m.read_byte(2).unwrap() as u16;
    let lo = m.read_byte(3).unwrap() as u16;
    assert_eq!(m.read_word(2).unwrap(), (hi << 8) | lo);
    assert_eq!(m.read_word(7).unwrap_err().kind, ErrorKind::OutOfBounds { addr: 7, max: 8, size: 2 });
}

#[test]
fn write_word_then_read_word() {
    let mut m = Ram::new(8);
    m.write_word(4, 0xBEEF).unwrap();
    assert_eq!(m.read_byte(4), Ok(0xBE));
    assert_eq!(m.read_byte(5), Ok(0xEF));
    assert_eq!(m.read_word(4), Ok(0xBEEF));
    let e = m.write_word(7, 1).unwrap_err();
    assert_eq!(e.kind, ErrorKind::OutOfBounds { addr: 7, max: 8, size: 2 });
    assert_eq!(m.read_byte(7), Ok(0));
}

#[test]
fn write_block_is_all_or_nothing() {
    let mut m = Ram::new(100);
    let e = m.write_block(98, &vec![1u8; 5]).unwrap_err();
    assert_eq!(e.kind, ErrorKind::OutOfBounds { addr: 98, max: 100, size: 5 });
    assert_eq!(m.read_byte(98), Ok(0));
    assert_eq!(m.read_byte(99), Ok(0));
    m.write_block(95, &vec![1u8, 2, 3, 4, 5]).unwrap();
    assert_eq!(m.read_byte(94), Ok(0));
    assert_eq!(m.read_byte(95), Ok(1));
    assert_eq!(m.read_byte(99), Ok(5));
    assert_eq!(m.size(), 100);
}

#[test]
fn device_traits_match_the_store() {
    let mut m = Ram::new(4);
    Writable::write_byte(&mut m, 1, 9).unwrap();
    assert_eq!(Readable::read_byte(&m, 1), Ok(9));
    assert_eq!(Readable::read_word(&m, 0), Ok(9));
    assert!(Writable::write_byte(&mut m, 4, 9).is_err());
}
