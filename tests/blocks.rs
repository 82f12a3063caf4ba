use dos_services::{DiskTransferArea, DriveLetter, FileControlBlock};

#[test]
fn new_fcb_places_drive_name_and_extension() {
    let fcb = FileControlBlock::new(Some(DriveLetter::C), *b"README  ", *b"TXT");
    assert_eq!(fcb.drive_byte(), 3);
    assert_eq!(&fcb.bytes[1..9], b"README  ");
    assert_eq!(&fcb.bytes[9..12], b"TXT");
    assert!(fcb.bytes[12..].iter().all(|&b| b == 0));
    assert_eq!(fcb.bytes.len(), 36);
}

#[test]
fn new_fcb_for_the_default_drive_has_drive_byte_zero() {
    let fcb = FileControlBlock::new(None, *b"A       ", *b"   ");
    assert_eq!(fcb.drive_byte(), 0);
    let a = FileControlBlock::new(Some(DriveLetter::A), *b"A       ", *b"   ");
    assert_eq!(a.drive_byte(), 1);
}

#[test]
fn fcb_fields_are_little_endian() {
    let mut fcb = FileControlBlock::new(None, *b"DATA    ", *b"BIN");
    fcb.bytes[12] = 0x34;
    fcb.bytes[13] = 0x12;
    fcb.bytes[16] = 0x78;
    fcb.bytes[17] = 0x56;
    fcb.bytes[18] = 0x34;
    fcb.bytes[19] = 0x12;
    fcb.bytes[20] = 0x21;
    fcb.bytes[21] = 0x4A;
    fcb.bytes[22] = 0x00;
    fcb.bytes[23] = 0x60;
    fcb.bytes[32] = 7;
    assert_eq!(fcb.current_block(), 0x1234);
    assert_eq!(fcb.file_size(), 0x1234_5678);
    assert_eq!(fcb.date(), 0x4A21);
    assert_eq!(fcb.time(), 0x6000);
    assert_eq!(fcb.current_record(), 7);
}

#[test]
fn record_size_round_trips() {
    let mut fcb = FileControlBlock::new(None, *b"DATA    ", *b"BIN");
    let before = fcb.bytes;
    fcb.set_record_size(128);
    assert_eq!(fcb.record_size(), 128);
    assert_eq!(&fcb.bytes[14..16], &[0x80, 0x00]);
    fcb.set_record_size(0xABCD);
    assert_eq!(fcb.record_size(), 0xABCD);
    assert_eq!(&fcb.bytes[..14], &before[..14]);
    assert_eq!(&fcb.bytes[16..], &before[16..]);
}

#[test]
fn random_record_round_trips_up_to_twenty_four_bits() {
    let mut fcb = FileControlBlock::new(None, *b"DATA    ", *b"BIN");
    for record in [0u32, 1, 255, 256, 0x012345, 0xFF_FFFF] {
        fcb.set_random_record(record);
        assert_eq!(fcb.random_record(), record);
    }
    fcb.set_random_record(0x0A0B0C);
    assert_eq!(&fcb.bytes[33..36], &[0x0C, 0x0B, 0x0A]);
    assert_eq!(&fcb.bytes[1..9], b"DATA    ");
}

#[test]
fn dta_fields_of_a_found_file() {
    let mut dta = DiskTransferArea::new();
    assert!(dta.bytes.iter().all(|&b| b == 0));
    assert_eq!(dta.name(), Vec::<u8>::new());
    dta.bytes[21] = 0x20;
    dta.bytes[22] = 0x10;
    dta.bytes[23] = 0x20;
    dta.bytes[24] = 0x21;
    dta.bytes[25] = 0x4A;
    dta.bytes[26] = 0x00;
    dta.bytes[27] = 0x04;
    dta.bytes[28] = 0x01;
    dta.bytes[29] = 0x00;
    dta.bytes[30..42].copy_from_slice(b"COMMAND.COM\0");
    assert_eq!(dta.attribute(), 0x20);
    assert_eq!(dta.time(), 0x2010);
    assert_eq!(dta.date(), 0x4A21);
    assert_eq!(dta.file_size(), 0x0001_0400);
    assert_eq!(dta.name(), b"COMMAND.COM".to_vec());
}

#[test]
fn dta_name_without_terminator_takes_all_thirteen_bytes() {
    let mut dta = DiskTransferArea::new();
    dta.bytes[30..43].copy_from_slice(b"ABCDEFGHIJKLM");
    assert_eq!(dta.name(), b"ABCDEFGHIJKLM".to_vec());
}
