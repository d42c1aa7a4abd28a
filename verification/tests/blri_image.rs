use bouffalo::blri::image::{check, process, Error, IoErrorKind, Operations};
use sha2::Digest;

fn header_image(body: &[u8], offset: u32, length: u32) -> Vec<u8> {
    let mut d = vec![0u8; 0x160];
    d[0..4].copy_from_slice(&0x42464e50u32.to_be_bytes());
    d[8..12].copy_from_slice(&0x46434647u32.to_be_bytes());
    d[0x64..0x68].copy_from_slice(&0x50434647u32.to_be_bytes());
    d[0x84..0x88].copy_from_slice(&offset.to_le_bytes());
    d[0x8C..0x90].copy_from_slice(&length.to_le_bytes());
    d.extend_from_slice(body);
    d
}

fn crc_of(header: &[u8]) -> u32 {
    crc::Crc::<u32>::new(&crc::CRC_32_ISO_HDLC).checksum(header)
}

#[test]
fn check_refills_placeholder_hash_and_crc() {
    let body = b"hello, bouffalo";
    let mut d = header_image(body, 0x160, body.len() as u32);
    d[0x90..0x94].copy_from_slice(&[0xef, 0xbe, 0xad, 0xde]);
    let ops = check(&d).expect("placeholder hash is accepted");
    let expected_hash = sha2::Sha256::digest(body).to_vec();
    assert_eq!(ops.refill_hash, Some(expected_hash.clone()));
    let mut header = d[0..0x15C].to_vec();
    header[0x90..0xB0].copy_from_slice(&expected_hash);
    assert_eq!(ops.refill_header_crc, Some(crc_of(&header)));
}

#[test]
fn process_then_check_needs_nothing() {
    let body = [7u8; 100];
    let mut d = header_image(&body, 0x160, 100);
    for i in 0..8 {
        d[0x90 + 4 * i..0x94 + 4 * i].copy_from_slice(&[0xef, 0xbe, 0xad, 0xde]);
    }
    let ops = check(&d).unwrap();
    assert!(ops.refill_hash.is_some());
    assert!(ops.refill_header_crc.is_some());
    process(&mut d, &ops).unwrap();
    assert_eq!(d.len(), 0x160 + 100);
    let again = check(&d).unwrap();
    assert_eq!(again.refill_hash, None);
    assert_eq!(again.refill_header_crc, None);
}

#[test]
fn check_hashes_only_the_body() {
    // The hash covers the body's length only, not what follows it.
    let body = [1u8, 2, 3, 4, 5, 6];
    let mut d = header_image(&body, 0x160, 2);
    d[0x90..0x94].copy_from_slice(&[0xef, 0xbe, 0xad, 0xde]);
    let ops = check(&d).unwrap();
    assert_eq!(ops.refill_hash, Some(sha2::Sha256::digest([1u8, 2]).to_vec()));
}

#[test]
fn check_accepts_body_hash_with_trailing_data() {
    let body = [1u8, 2, 3, 4, 5, 6];
    let mut d = header_image(&body, 0x160, 2);
    d[0x90..0xB0].copy_from_slice(&sha2::Sha256::digest([1u8, 2]));
    let crc = crc_of(&d[0..0x15C]);
    d[0x15C..0x160].copy_from_slice(&crc.to_le_bytes());
    let ops = check(&d).unwrap();
    assert_eq!(ops.refill_hash, None);
    assert_eq!(ops.refill_header_crc, None);
}

#[test]
fn check_empty_body_hashes_nothing() {
    let mut d = header_image(&[9u8; 4], 0x160, 0);
    let empty_hash = sha2::Sha256::digest([]).to_vec();
    d[0x90..0xB0].copy_from_slice(&empty_hash);
    let crc = crc_of(&d[0..0x15C]);
    d[0x15C..0x160].copy_from_slice(&crc.to_le_bytes());
    let ops = check(&d).unwrap();
    assert_eq!(ops.refill_hash, None);
    assert_eq!(ops.refill_header_crc, None);
}

#[test]
fn check_wrong_crc_only() {
    let body = [3u8; 10];
    let mut d = header_image(&body, 0x160, 10);
    d[0x90..0xB0].copy_from_slice(&sha2::Sha256::digest(body));
    let ops = check(&d).unwrap();
    assert_eq!(ops.refill_hash, None);
    assert_eq!(ops.refill_header_crc, Some(crc_of(&d[0..0x15C])));
}

#[test]
fn check_errors() {
    assert!(matches!(check(&[0x42, 0x46]), Err(Error::Io(IoErrorKind::UnexpectedEof))));
    let mut d = header_image(&[], 0x160, 0);
    d[0] = 0;
    assert!(matches!(check(&d), Err(Error::MagicNumber { wrong_magic: 0x00464e50 })));
    let d = header_image(&[], 0x160, 0);
    assert!(matches!(check(&d[0..0x100]), Err(Error::HeadLength { wrong_length: 0x100 })));
    let mut d = header_image(&[], 0x160, 0);
    d[8] = 0;
    assert!(matches!(check(&d), Err(Error::FlashConfigMagic { wrong_magic: 0x00434647 })));
    let mut d = header_image(&[], 0x160, 0);
    d[0x64] = 0;
    assert!(matches!(check(&d), Err(Error::ClockConfigMagic { wrong_magic: 0x00434647 })));
    let d = header_image(&[0u8; 4], 0x160, 5);
    assert!(matches!(
        check(&d),
        Err(Error::ImageOffsetOverflow { file_length: 0x164, wrong_image_offset: 0x160, wrong_image_length: 5 })
    ));
    let mut d = header_image(&[0u8; 4], 0x160, 4);
    d[0x90] = 1;
    match check(&d) {
        Err(Error::Sha256Checksum { wrong_checksum }) => {
            let mut expected = vec![0u8; 32];
            expected[0] = 1;
            assert_eq!(wrong_checksum, expected);
        }
        _ => panic!("expected a checksum error"),
    }
}

#[test]
fn process_writes_fields() {
    let mut d = vec![0u8; 0x160];
    let ops = Operations { refill_hash: Some(vec![0xAA; 32]), refill_header_crc: Some(0x11223344) };
    process(&mut d, &ops).unwrap();
    assert_eq!(&d[0x90..0xB0], &[0xAA; 32]);
    assert_eq!(&d[0x15C..0x160], &[0x44, 0x33, 0x22, 0x11]);
    let mut short = vec![1u8; 4];
    let ops = Operations { refill_hash: None, refill_header_crc: Some(0x01020304) };
    process(&mut short, &ops).unwrap();
    assert_eq!(short.len(), 0x160);
    assert_eq!(&short[0..4], &[1, 1, 1, 1]);
    assert_eq!(short[4], 0);
    assert_eq!(&short[0x15C..0x160], &[4, 3, 2, 1]);
}
