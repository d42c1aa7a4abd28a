use bouffalo::blri::isp::{BootInfo, EraseFlash, GetBootInfo, IspCommand, IspError, WriteFlash};

#[test]
fn get_boot_info_parses_response() {
    let mut bytes = [0u8; 24];
    for (i, b) in bytes.iter_mut().enumerate() {
        *b = i as u8;
    }
    let info: BootInfo = GetBootInfo::parse_response(&bytes).unwrap();
    assert_eq!(info.boot_rom_version, [0, 1, 2, 3]);
    assert_eq!(info.flash_info_from_boot, 0x0b0a0908);
    assert_eq!(info.chip_id, [12, 13, 14, 15, 16, 17]);
    assert_eq!(info.flash_pin(), (0x0b0a0908 >> 14) & 0x1f);
    assert_eq!(GetBootInfo.data_size(), 0);
    assert_eq!(GetBootInfo::COMMAND, 0x10);
    assert!(GetBootInfo::RESPONSE_PAYLOAD);
}

#[test]
fn get_boot_info_wrong_length() {
    match GetBootInfo::parse_response(&[0u8; 23]) {
        Err(IspError::ResponseLength { wrong_length }) => assert_eq!(wrong_length, 23),
        Ok(_) => panic!("a short response is refused"),
    }
}

#[test]
fn erase_flash_packet_data() {
    let cmd = EraseFlash::new(0x1234_5678, 0x9abc_def0);
    assert_eq!(cmd.data_size(), 8);
    let mut buf = [0u8; 8];
    cmd.write_packet_data(&mut buf);
    assert_eq!(buf, [0x78, 0x56, 0x34, 0x12, 0xf0, 0xde, 0xbc, 0x9a]);
    assert_eq!(EraseFlash::COMMAND, 0x30);
    assert!(!EraseFlash::RESPONSE_PAYLOAD);
    assert!(EraseFlash::parse_response(&[]).is_ok());
}

#[test]
fn write_flash_packet_data() {
    let payload = [0xde, 0xad, 0xbe];
    let cmd = WriteFlash::new(0x1000, &payload);
    assert_eq!(cmd.data_size(), 7);
    let mut buf = [0u8; 7];
    cmd.write_packet_data(&mut buf);
    assert_eq!(buf, [0x00, 0x10, 0x00, 0x00, 0xde, 0xad, 0xbe]);
    assert_eq!(WriteFlash::COMMAND, 0x31);
}
