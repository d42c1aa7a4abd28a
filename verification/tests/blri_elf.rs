use bouffalo::blri::elf::{elf_to_bin_bytes, sections_to_bin, try_elf_to_bin_bytes, ElfSection};
use bouffalo::blri::image::{Error, IoErrorKind};

fn section_header(out: &mut Vec<u8>, name: u32, ty: u32, flags: u64, addr: u64, offset: u64, size: u64) {
    out.extend_from_slice(&name.to_le_bytes());
    out.extend_from_slice(&ty.to_le_bytes());
    out.extend_from_slice(&flags.to_le_bytes());
    out.extend_from_slice(&addr.to_le_bytes());
    out.extend_from_slice(&offset.to_le_bytes());
    out.extend_from_slice(&size.to_le_bytes());
    out.extend_from_slice(&0u32.to_le_bytes());
    out.extend_from_slice(&0u32.to_le_bytes());
    out.extend_from_slice(&1u64.to_le_bytes());
    out.extend_from_slice(&0u64.to_le_bytes());
}

/// A small 64-bit RISC-V ELF file: `.data` comes before `.text` in the
/// section table but after it in the file.
fn tiny_elf() -> Vec<u8> {
    let strtab = b"\0.text\0.data\0.bss\0.comment\0.shstrtab\0";
    let shoff: u64 = 0x50 + strtab.len() as u64;
    let shoff = (shoff + 7) & !7;
    let mut e = Vec::new();
    e.extend_from_slice(&[0x7f, b'E', b'L', b'F', 2, 1, 1, 0, 0, 0, 0, 0, 0, 0, 0, 0]);
    e.extend_from_slice(&2u16.to_le_bytes());
    e.extend_from_slice(&0xf3u16.to_le_bytes());
    e.extend_from_slice(&1u32.to_le_bytes());
    e.extend_from_slice(&0x1000u64.to_le_bytes());
    e.extend_from_slice(&0u64.to_le_bytes());
    e.extend_from_slice(&shoff.to_le_bytes());
    e.extend_from_slice(&0u32.to_le_bytes());
    e.extend_from_slice(&64u16.to_le_bytes());
    e.extend_from_slice(&56u16.to_le_bytes());
    e.extend_from_slice(&0u16.to_le_bytes());
    e.extend_from_slice(&64u16.to_le_bytes());
    e.extend_from_slice(&6u16.to_le_bytes());
    e.extend_from_slice(&5u16.to_le_bytes());
    assert_eq!(e.len(), 0x40);
    e.extend_from_slice(b"TTTT");
    e.extend_from_slice(b"DDDD");
    e.extend_from_slice(b"CCCCCCCC");
    e.extend_from_slice(strtab);
    while (e.len() as u64) < shoff {
        e.push(0);
    }
    section_header(&mut e, 0, 0, 0, 0, 0, 0);
    section_header(&mut e, 7, 1, 0x3, 0x2000, 0x44, 4);
    section_header(&mut e, 1, 1, 0x6, 0x1000, 0x40, 4);
    section_header(&mut e, 13, 8, 0x3, 0x3000, 0x48, 16);
    section_header(&mut e, 18, 1, 0x0, 0, 0x48, 8);
    section_header(&mut e, 27, 3, 0x0, 0, 0x50, strtab.len() as u64);
    e
}

#[test]
fn elf_sections_in_file_order() {
    let bin = elf_to_bin_bytes(&tiny_elf()).expect("the file parses");
    assert_eq!(bin, b"TTTTDDDD".to_vec());
    match try_elf_to_bin_bytes(&tiny_elf()) {
        Some(Ok(bin)) => assert_eq!(bin, b"TTTTDDDD".to_vec()),
        _ => panic!("the file converts"),
    }
}

#[test]
fn elf_parse_failure() {
    assert!(matches!(elf_to_bin_bytes(b"not an elf file"), Err(Error::Io(IoErrorKind::Other))));
}

fn sec(flags: u64, address: u64, size: u64, offset: u64, data: Option<&[u8]>) -> ElfSection {
    ElfSection { sh_flags: Some(flags), address, size, offset: Some(offset), data: data.map(|d| d.to_vec()) }
}

#[test]
fn sections_sorted_by_offset_then_address() {
    let sections = vec![
        sec(0x2, 0x30, 2, 0x10, Some(b"cc")),
        sec(0x2, 0x20, 2, 0x10, Some(b"bb")),
        sec(0x2, 0x10, 2, 0x08, Some(b"aa")),
        sec(0x0, 0x00, 2, 0x00, Some(b"xx")),
        sec(0x3, 0x40, 3, 0x20, None),
        sec(0x2, 0x50, 0, 0x18, Some(b"")),
    ];
    assert_eq!(sections_to_bin(&sections), b"aabbcc\0\0\0".to_vec());
}
