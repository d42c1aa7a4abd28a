use bouffalo::blri::protocol::{
    erase_range, flash_id_from_response, flash_pin_data, get_flash_config_for_flash_id, packet_header,
    response_length, response_status, write_flash_chunks, FlashChunk, UartResponseError,
};

#[test]
fn packet_header_checksum() {
    assert_eq!(packet_header(0x10, &[]), [0x10, 0x00, 0x00, 0x00]);
    assert_eq!(packet_header(0x30, &[1, 2, 3, 4, 5, 6, 7, 8]), [0x30, 8 + 36, 8, 0]);
    let data = vec![0xffu8; 300];
    let sum = (300 % 256 + 300 / 256 + 300 * 0xff) % 256;
    assert_eq!(packet_header(0x31, &data), [0x31, sum as u8, 0x2c, 0x01]);
}

#[test]
fn response_status_codes() {
    assert_eq!(response_status(*b"OK"), Ok(()));
    assert_eq!(response_status(*b"PD"), Err(UartResponseError::Pending));
    assert_eq!(response_status(*b"FL"), Err(UartResponseError::Failed));
    assert_eq!(response_status(*b"XY"), Err(UartResponseError::Unknown(*b"XY")));
    assert_eq!(response_length([0x34, 0x12]), 0x1234);
}

#[test]
fn flash_config_lookup() {
    let config = get_flash_config_for_flash_id([0xef, 0x40, 0x18]).unwrap();
    assert_eq!(config.len(), 88);
    assert_eq!(&config[0..4], &[0x04, 0x41, 0x01, 0x00]);
    assert_eq!(config[87], 0x00);
    assert_eq!(config[84], 0xE8);
    assert!(get_flash_config_for_flash_id([0xef, 0x40, 0x17]).is_none());
    assert_eq!(flash_id_from_response(&[0xef, 0x40, 0x18, 0x00]), [0xef, 0x40, 0x18]);
    assert_eq!(flash_pin_data(0x04), [0x04, 0x41, 0x01, 0x00]);
}

#[test]
fn flash_write_plan() {
    assert_eq!(write_flash_chunks(0), vec![]);
    assert_eq!(
        write_flash_chunks(5000),
        vec![FlashChunk { addr: 0, start: 0, end: 4096 }, FlashChunk { addr: 4096, start: 4096, end: 5000 }]
    );
    assert_eq!(write_flash_chunks(8192).len(), 2);
    assert_eq!(erase_range(100), Some((0, 100)));
    assert_eq!(erase_range(0x10000), None);
}
