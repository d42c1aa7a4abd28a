//! Framing of the UART in-system programming protocol: packet headers,
//! response status, flash configuration and the plan of a flash write.
use vstd::prelude::*;

use super::isp::{le_bytes, to_le_bytes};

verus! {

/// Size of one flash write command's payload.
pub const CHUNK_SIZE: usize = 4096;

/// Sum of the bytes modulo 256, added from the first to the last.
pub open spec fn byte_sum(s: Seq<u8>) -> u8
    decreases s.len(),
{
    if s.len() == 0 {
        0
    } else {
        ((byte_sum(s.drop_last()) + s.last()) % 256) as u8
    }
}

/// The little-endian bytes of the 16-bit length `n`.
pub open spec fn le16(n: int) -> Seq<u8> {
    seq![(n % 256) as u8, (n / 256) as u8]
}

/// Header of a packet: the command, the checksum of the length bytes and
/// the data, and the data length, little-endian.
pub open spec fn packet_header_spec(command: u8, data: Seq<u8>) -> Seq<u8> {
    seq![command, byte_sum(le16(data.len() as int) + data), le16(data.len() as int)[0], le16(data.len() as int)[1]]
}

/// Builds the header of a packet that carries `data`, which is at most
/// 65535 bytes long.
pub fn packet_header(command: u8, data: &[u8]) -> (r: [u8; 4])
    requires
        data@.len() <= 0xFFFF,
    ensures
        r@ == packet_header_spec(command, data@),
{
    let len: usize = data.len();
    let lo: u8 = (len % 256) as u8;
    let hi: u8 = (len / 256) as u8;
    let ghost all = le16(len as int) + data@;
    let mut checksum: u8 = 0;
    checksum = checksum.wrapping_add(lo);
    proof {
        assert(byte_sum(Seq::<u8>::empty()) == 0);
        assert(all.take(1).drop_last() =~= Seq::<u8>::empty());
        assert(all.take(1).last() == lo);
        assert(byte_sum(all.take(1)) == lo);
    }
    checksum = hi.wrapping_add(checksum);
    proof {
        assert(all.take(2).drop_last() =~= all.take(1));
        assert(all.take(2).last() == hi);
        assert(byte_sum(all.take(2)) == checksum);
    }
    let mut i: usize = 0;
    while i < len
        invariant
            len == data@.len(),
            len <= 0xFFFF,
            i <= len,
            all == le16(len as int) + data@,
            checksum == byte_sum(all.take(i + 2)),
        decreases len - i,
    {
        checksum = data[i].wrapping_add(checksum);
        proof {
            assert(all.take(i + 3).drop_last() =~= all.take(i + 2));
            assert(all.take(i + 3).last() == data@[i as int]);
        }
        i = i + 1;
    }
    assert(all.take(len + 2) =~= all);
    [command, checksum, lo, hi]
}

/// Error status of a response.
#[derive(Clone, Copy, Debug, PartialEq, Eq)]
pub enum UartResponseError {
    /// Operation pending.
    Pending,
    /// Operation failed.
    Failed,
    /// Unknown operation.
    Unknown([u8; 2]),
}

/// The outcome that the two status bytes of a response report.
pub open spec fn response_status_spec(state: Seq<u8>) -> Result<(), UartResponseError> {
    if state == seq![0x4Fu8, 0x4Bu8] {
        Ok(())
    } else if state == seq![0x50u8, 0x44u8] {
        Err(UartResponseError::Pending)
    } else if state == seq![0x46u8, 0x4Cu8] {
        Err(UartResponseError::Failed)
    } else {
        Err(UartResponseError::Unknown([state[0], state[1]]))
    }
}

/// Reads the status of a response: `OK` succeeds, `PD` is pending, `FL`
/// has failed, anything else is unknown.
pub fn response_status(state: [u8; 2]) -> (r: Result<(), UartResponseError>)
    ensures
        r == response_status_spec(state@),
{
    let a = state[0];
    let b = state[1];
    proof {
        assert(state@ =~= seq![a, b]);
    }
    if a == 0x4F && b == 0x4B {
        Ok(())
    } else if a == 0x50 && b == 0x44 {
        Err(UartResponseError::Pending)
    } else if a == 0x46 && b == 0x4C {
        Err(UartResponseError::Failed)
    } else {
        let unknown: [u8; 2] = [a, b];
        proof {
            assert(unknown@ =~= seq![a, b]);
        }
        Err(UartResponseError::Unknown(unknown))
    }
}

/// The 16-bit payload length of a response, from its two little-endian
/// bytes.
pub fn response_length(len_buf: [u8; 2]) -> (r: u16)
    ensures
        r == len_buf@[0] + 256 * len_buf@[1],
{
    len_buf[0] as u16 + 256 * (len_buf[1] as u16)
}

/// Flash configuration of the W25Q128 flash (identifier EF 40 18).
pub open spec fn w25q128_config() -> Seq<u8> {
    seq![
        0x04u8, 0x41, 0x01, 0x00, 0x04, 0x01, 0x00, 0x00, 0x66, 0x99, 0xFF, 0x03, 0x9F, 0x00, 0xB7,
        0xE9, 0x04, 0xEF, 0x00, 0x01, 0xC7, 0x20, 0x52, 0xD8, 0x06, 0x02, 0x32, 0x00, 0x0B, 0x01,
        0x0B, 0x01, 0x3B, 0x01, 0xBB, 0x00, 0x6B, 0x01, 0xEB, 0x02, 0xEB, 0x02, 0x02, 0x50, 0x00,
        0x01, 0x00, 0x01, 0x01, 0x00, 0x02, 0x01, 0x01, 0x01, 0xAB, 0x01, 0x05, 0x35, 0x00, 0x00,
        0x01, 0x31, 0x00, 0x00, 0x38, 0xFF, 0xA0, 0xFF, 0x77, 0x03, 0x02, 0x40, 0x77, 0x03, 0x02,
        0xF0, 0x2C, 0x01, 0xB0, 0x04, 0xB0, 0x04, 0x05, 0x00, 0xE8, 0x80, 0x03, 0x00,
    ]
}

/// The flash configuration for a flash identifier, for the supported
/// flash (W25Q128, identifier EF 40 18) only.
pub fn get_flash_config_for_flash_id(flash_id: [u8; 3]) -> (r: Option<Vec<u8>>)
    ensures
        flash_id@ == seq![0xEFu8, 0x40u8, 0x18u8] ==> (r matches Some(c) && c@ == w25q128_config()),
        flash_id@ != seq![0xEFu8, 0x40u8, 0x18u8] ==> r is None,
{
    if flash_id[0] == 0xef && flash_id[1] == 0x40 && flash_id[2] == 0x18 {
        let config: Vec<u8> = vec![
            0x04, 0x41, 0x01, 0x00, 0x04, 0x01, 0x00, 0x00, 0x66, 0x99, 0xFF, 0x03, 0x9F, 0x00, 0xB7,
            0xE9, 0x04, 0xEF, 0x00, 0x01, 0xC7, 0x20, 0x52, 0xD8, 0x06, 0x02, 0x32, 0x00, 0x0B, 0x01,
            0x0B, 0x01, 0x3B, 0x01, 0xBB, 0x00, 0x6B, 0x01, 0xEB, 0x02, 0xEB, 0x02, 0x02, 0x50, 0x00,
            0x01, 0x00, 0x01, 0x01, 0x00, 0x02, 0x01, 0x01, 0x01, 0xAB, 0x01, 0x05, 0x35, 0x00, 0x00,
            0x01, 0x31, 0x00, 0x00, 0x38, 0xFF, 0xA0, 0xFF, 0x77, 0x03, 0x02, 0x40, 0x77, 0x03, 0x02,
            0xF0, 0x2C, 0x01, 0xB0, 0x04, 0xB0, 0x04, 0x05, 0x00, 0xE8, 0x80, 0x03, 0x00,
        ];
        assert(config@ =~= w25q128_config());
        assert(flash_id@ =~= seq![0xEFu8, 0x40u8, 0x18u8]);
        Some(config)
    } else {
        proof {
            if flash_id@ == seq![0xEFu8, 0x40u8, 0x18u8] {
                assert(flash_id@[0] == 0xEF && flash_id@[1] == 0x40 && flash_id@[2] == 0x18);
            }
        }
        None
    }
}

/// Data of the command that sets the flash pins: `0x00014100 | flash_pin`,
/// little-endian.
pub fn flash_pin_data(flash_pin: u32) -> (r: [u8; 4])
    ensures
        r@ == le_bytes(0x00014100u32 | flash_pin),
{
    to_le_bytes(0x00014100u32 | flash_pin)
}

/// The flash identifier in a 4-byte response to the read-identifier
/// command: its first three bytes.
pub fn flash_id_from_response(ans: &[u8]) -> (r: [u8; 3])
    requires
        ans@.len() == 4,
    ensures
        r@ == ans@.subrange(0, 3),
{
    let r: [u8; 3] = [ans[0], ans[1], ans[2]];
    assert(r@ =~= ans@.subrange(0, 3));
    r
}

/// One flash write of a flash image: the flash address and the range of
/// image bytes it writes.
#[derive(Clone, Copy, Debug, PartialEq, Eq, Structural)]
pub struct FlashChunk {
    /// Flash address of the first byte.
    pub addr: u32,
    /// Index of the first image byte.
    pub start: usize,
    /// Index after the last image byte.
    pub end: usize,
}

/// The writes of an image of `len` bytes: 4096-byte chunks from the
/// start, the last one shorter when the length is not a multiple of 4096.
pub open spec fn chunk_at(len: int, k: int) -> FlashChunk {
    FlashChunk {
        addr: (k * 4096) as u32,
        start: (k * 4096) as usize,
        end: (if (k + 1) * 4096 < len { (k + 1) * 4096 } else { len }) as usize,
    }
}

/// Plans the writes of an image of `image_len` bytes: 4096-byte chunks
/// written from flash address 0 on (the address truncated to 32 bits).
pub fn write_flash_chunks(image_len: usize) -> (r: Vec<FlashChunk>)
    requires
        image_len <= isize::MAX,
    ensures
        r@.len() * 4096 >= image_len,
        r@.len() == 0 || (r@.len() - 1) * 4096 < image_len,
        forall|k: int| 0 <= k < r@.len() ==> #[trigger] r@[k] == chunk_at(image_len as int, k),
{
    let mut chunks: Vec<FlashChunk> = Vec::new();
    let mut start: usize = 0;
    while start < image_len
        invariant
            image_len <= isize::MAX,
            start == chunks@.len() * 4096,
            start <= image_len + 4095,
            chunks@.len() == 0 || (chunks@.len() - 1) * 4096 < image_len,
            forall|k: int| 0 <= k < chunks@.len() ==> #[trigger] chunks@[k] == chunk_at(image_len as int, k),
        decreases image_len + 4096 - start,
    {
        let end: usize = if start + CHUNK_SIZE < image_len { start + CHUNK_SIZE } else { image_len };
        chunks.push(FlashChunk { addr: #[verifier::truncate] (start as u32), start, end });
        start = start + CHUNK_SIZE;
    }
    chunks
}

/// The flash range to erase before writing an image of `image_len` bytes,
/// from address 0 to the image length; `None` for an image longer than
/// 65535 bytes, which the protocol cannot carry.
pub fn erase_range(image_len: usize) -> (r: Option<(u32, u32)>)
    ensures
        image_len > 0xFFFF ==> r is None,
        image_len <= 0xFFFF ==> r == Some((0u32, image_len as u32)),
{
    if image_len > 0xFFFF {
        None
    } else {
        Some((0, image_len as u32))
    }
}

} // verus!
