//! Checking and patching the boot header of a Bouffalo Lab firmware image.
//!
//! An image starts with a boot header of 0x160 bytes. The header holds
//! three magic numbers, the offset and length of the image body, the
//! SHA-256 hash of the body at 0x90 and the CRC-32 of the first 0x15C
//! header bytes at 0x15C. [`check`] finds which of the hash and the CRC
//! need to be written again, and [`process`] writes them.
use vstd::prelude::*;

use super::isp::{le_bytes, le_word, to_le_bytes};

verus! {

/// Length of the boot header.
pub const HEAD_LENGTH: u64 = 0x160;

/// Magic number at offset 0, read big-endian.
pub const HEAD_MAGIC: u32 = 0x42464e50;

/// Flash configuration magic at offset 0x08, read big-endian.
pub const FLASH_MAGIC: u32 = 0x46434647;

/// Clock configuration magic at offset 0x64, read big-endian.
pub const CLOCK_MAGIC: u32 = 0x50434647;

/// The kind of a failed read or write.
#[derive(Clone, Copy, Debug, PartialEq, Eq, Structural)]
pub enum IoErrorKind {
    /// The data ended before a read was complete.
    UnexpectedEof,
    /// Any other fault, such as data that does not parse.
    Other,
}

/// Error of image processing.
#[derive(Debug, PartialEq, Eq)]
pub enum Error {
    /// A read or write failed.
    Io(IoErrorKind),
    /// Wrong magic number.
    MagicNumber { wrong_magic: u32 },
    /// The file is too short to hold an image header.
    HeadLength { wrong_length: u64 },
    /// Wrong flash config magic.
    FlashConfigMagic { wrong_magic: u32 },
    /// Wrong clock config magic.
    ClockConfigMagic { wrong_magic: u32 },
    /// The image body runs past the end of the file.
    ImageOffsetOverflow { file_length: u64, wrong_image_offset: u32, wrong_image_length: u32 },
    /// Wrong sha256 checksum.
    Sha256Checksum { wrong_checksum: Vec<u8> },
}

/// An [`Error`] with its byte vectors seen as sequences.
pub enum ErrorView {
    Io(IoErrorKind),
    MagicNumber { wrong_magic: u32 },
    HeadLength { wrong_length: u64 },
    FlashConfigMagic { wrong_magic: u32 },
    ClockConfigMagic { wrong_magic: u32 },
    ImageOffsetOverflow { file_length: u64, wrong_image_offset: u32, wrong_image_length: u32 },
    Sha256Checksum { wrong_checksum: Seq<u8> },
}

impl View for Error {
    type V = ErrorView;

    open spec fn view(&self) -> ErrorView {
        match self {
            Error::Io(k) => ErrorView::Io(*k),
            Error::MagicNumber { wrong_magic } => ErrorView::MagicNumber { wrong_magic: *wrong_magic },
            Error::HeadLength { wrong_length } => ErrorView::HeadLength { wrong_length: *wrong_length },
            Error::FlashConfigMagic { wrong_magic } => ErrorView::FlashConfigMagic { wrong_magic: *wrong_magic },
            Error::ClockConfigMagic { wrong_magic } => ErrorView::ClockConfigMagic { wrong_magic: *wrong_magic },
            Error::ImageOffsetOverflow { file_length, wrong_image_offset, wrong_image_length } => {
                ErrorView::ImageOffsetOverflow {
                    file_length: *file_length,
                    wrong_image_offset: *wrong_image_offset,
                    wrong_image_length: *wrong_image_length,
                }
            },
            Error::Sha256Checksum { wrong_checksum } => ErrorView::Sha256Checksum {
                wrong_checksum: wrong_checksum@,
            },
        }
    }
}

/// Process operations.
pub struct Operations {
    /// Refill hash value of image body into header, or None if not needed.
    ///
    /// Should include 32 bytes for sha256 algorithm.
    pub refill_hash: Option<Vec<u8>>,
    /// Refill CRC32 value of header, None if not needed.
    pub refill_header_crc: Option<u32>,
}

impl View for Operations {
    type V = (Option<Seq<u8>>, Option<u32>);

    open spec fn view(&self) -> (Option<Seq<u8>>, Option<u32>) {
        (
            match self.refill_hash {
                Some(h) => Some(h@),
                None => None,
            },
            self.refill_header_crc,
        )
    }
}

/// The result of [`check`], seen through the views.
pub open spec fn check_view(r: Result<Operations, Error>) -> Result<(Option<Seq<u8>>, Option<u32>), ErrorView> {
    match r {
        Ok(ops) => Ok(ops@),
        Err(e) => Err(e@),
    }
}

/// The SHA-256 digest of `data`, as computed by the `sha2` crate.
pub uninterp spec fn sha256_digest(data: Seq<u8>) -> Seq<u8>;

/// The CRC-32/ISO-HDLC checksum of `data`, as computed by the `crc` crate.
pub uninterp spec fn crc32_iso_hdlc(data: Seq<u8>) -> u32;

/// Computes the SHA-256 digest of `data` with `sha2::Sha256`
/// (`Digest::digest`). The contract states that the result is the digest
/// named [`sha256_digest`] of the data, and that it is 32 bytes long, as
/// the output size of SHA-256 is.
#[verifier::external_body]
fn sha256(data: &[u8]) -> (r: Vec<u8>)
    ensures
        r@ == sha256_digest(data@),
        r@.len() == 32,
{
    <sha2::Sha256 as sha2::Digest>::digest(data).to_vec()
}

/// Computes the CRC-32/ISO-HDLC checksum of `data` with
/// `crc::Crc::<u32>::checksum` on `crc::CRC_32_ISO_HDLC`. The contract
/// states only that the result is the checksum named [`crc32_iso_hdlc`] of
/// the data.
#[verifier::external_body]
fn crc32(data: &[u8]) -> (r: u32)
    ensures
        r == crc32_iso_hdlc(data@),
{
    crc::Crc::<u32>::new(&crc::CRC_32_ISO_HDLC).checksum(data)
}

/// The big-endian 32-bit word at `at`.
pub open spec fn be32(d: Seq<u8>, at: int) -> u32 {
    (d[at] * 16777216 + d[at + 1] * 65536 + d[at + 2] * 256 + d[at + 3]) as u32
}

/// The little-endian 32-bit word at `at`.
pub open spec fn le32(d: Seq<u8>, at: int) -> u32 {
    le_word(d[at], d[at + 1], d[at + 2], d[at + 3])
}

/// Reads the big-endian 32-bit word at `at`.
pub fn read_be32(data: &[u8], at: usize) -> (r: u32)
    requires
        at + 4 <= data@.len(),
    ensures
        r == be32(data@, at as int),
{
    data[at] as u32 * 16777216 + data[at + 1] as u32 * 65536 + data[at + 2] as u32 * 256 + data[at + 3] as u32
}

/// Reads the little-endian 32-bit word at `at`.
pub fn read_le32(data: &[u8], at: usize) -> (r: u32)
    requires
        at + 4 <= data@.len(),
    ensures
        r == le32(data@, at as int),
{
    data[at] as u32 + 256 * (data[at + 1] as u32) + 65536 * (data[at + 2] as u32) + 16777216 * (data[at + 3] as u32)
}

/// Whether two byte strings are equal.
pub fn bytes_eq(a: &[u8], b: &[u8]) -> (r: bool)
    ensures
        r == (a@ == b@),
{
    if a.len() != b.len() {
        return false;
    }
    let mut i: usize = 0;
    while i < a.len()
        invariant
            a@.len() == b@.len(),
            i <= a@.len(),
            forall|j: int| 0 <= j < i ==> a@[j] == b@[j],
        decreases a@.len() - i,
    {
        if a[i] != b[i] {
            return false;
        }
        i = i + 1;
    }
    assert(a@ =~= b@);
    true
}

/// The placeholder hash with `0xdeadbeef` in its first four bytes (stored
/// little-endian) and zeros after.
pub open spec fn placeholder_hash_once() -> Seq<u8> {
    Seq::new(32, |i: int| if i == 0 { 0xefu8 } else if i == 1 { 0xbeu8 } else if i == 2 { 0xadu8 } else if i == 3 { 0xdeu8 } else { 0u8 })
}

/// The placeholder hash with `0xdeadbeef` (stored little-endian) eight
/// times over.
pub open spec fn placeholder_hash_all() -> Seq<u8> {
    Seq::new(32, |i: int| if i % 4 == 0 { 0xefu8 } else if i % 4 == 1 { 0xbeu8 } else if i % 4 == 2 { 0xadu8 } else { 0xdeu8 })
}

/// The two placeholder hashes of [`placeholder_hash_once`] and
/// [`placeholder_hash_all`].
fn placeholder_hashes() -> (r: (Vec<u8>, Vec<u8>))
    ensures
        r.0@ == placeholder_hash_once(),
        r.1@ == placeholder_hash_all(),
{
    let mut once: Vec<u8> = Vec::new();
    let mut all: Vec<u8> = Vec::new();
    let pattern: [u8; 4] = [0xef, 0xbe, 0xad, 0xde];
    let mut i: usize = 0;
    while i < 32
        invariant
            i <= 32,
            once@.len() == i,
            all@.len() == i,
            pattern@ == seq![0xefu8, 0xbeu8, 0xadu8, 0xdeu8],
            forall|j: int| 0 <= j < i ==> #[trigger] once@[j] == placeholder_hash_once()[j],
            forall|j: int| 0 <= j < i ==> #[trigger] all@[j] == placeholder_hash_all()[j],
        decreases 32 - i,
    {
        if i < 4 {
            once.push(pattern[i]);
        } else {
            once.push(0);
        }
        all.push(pattern[i % 4]);
        i = i + 1;
    }
    assert(once@ =~= placeholder_hash_once());
    assert(all@ =~= placeholder_hash_all());
    (once, all)
}

/// What to do with the hash field, given the hash read from the header and
/// the hash computed over the body: nothing when they agree; refill it
/// when the header holds one of the placeholder hashes; else an error.
pub open spec fn hash_operation_spec(actual: Seq<u8>, calculated: Seq<u8>) -> Result<Option<Seq<u8>>, ErrorView> {
    if calculated == actual {
        Ok(None)
    } else if actual != placeholder_hash_once() && actual != placeholder_hash_all() {
        Err(ErrorView::Sha256Checksum { wrong_checksum: actual })
    } else {
        Ok(Some(calculated))
    }
}

/// Decides what to do with the hash field of the header: `actual` is the
/// hash the header holds, `calculated` the hash of the image body.
pub fn hash_operation(actual: &[u8], calculated: &[u8]) -> (r: Result<Option<Vec<u8>>, Error>)
    ensures
        match r {
            Ok(Some(h)) => hash_operation_spec(actual@, calculated@) == Ok::<_, ErrorView>(Some(h@)),
            Ok(None) => hash_operation_spec(actual@, calculated@) == Ok::<_, ErrorView>(None::<Seq<u8>>),
            Err(e) => hash_operation_spec(actual@, calculated@) == Err::<Option<Seq<u8>>, _>(e@),
        },
{
    if bytes_eq(calculated, actual) {
        return Ok(None);
    }
    let (once, all) = placeholder_hashes();
    if !bytes_eq(actual, once.as_slice()) && !bytes_eq(actual, all.as_slice()) {
        return Err(Error::Sha256Checksum { wrong_checksum: vstd::slice::slice_to_vec(actual) });
    }
    Ok(Some(vstd::slice::slice_to_vec(calculated)))
}

/// Whether to write the header CRC: when the stored CRC differs from the
/// computed one, or when the hash is refilled (which changes the header).
pub fn header_crc_operation(read_crc: u32, calculated_crc: u32, hash_refilled: bool) -> (r: Option<u32>)
    ensures
        r == (if read_crc != calculated_crc || hash_refilled { Some(calculated_crc) } else { None }),
{
    if read_crc != calculated_crc || hash_refilled {
        Some(calculated_crc)
    } else {
        None
    }
}

/// Offset and length of the image body, read from a header whose magic
/// numbers and length have been checked.
pub open spec fn header_check_spec(d: Seq<u8>) -> Result<(u32, u32), ErrorView> {
    if d.len() < 4 {
        Err(ErrorView::Io(IoErrorKind::UnexpectedEof))
    } else if be32(d, 0) != HEAD_MAGIC {
        Err(ErrorView::MagicNumber { wrong_magic: be32(d, 0) })
    } else if d.len() < HEAD_LENGTH {
        Err(ErrorView::HeadLength { wrong_length: d.len() as u64 })
    } else if be32(d, 0x08) != FLASH_MAGIC {
        Err(ErrorView::FlashConfigMagic { wrong_magic: be32(d, 0x08) })
    } else if be32(d, 0x64) != CLOCK_MAGIC {
        Err(ErrorView::ClockConfigMagic { wrong_magic: be32(d, 0x64) })
    } else if le32(d, 0x84) + le32(d, 0x8C) > d.len() {
        Err(
            ErrorView::ImageOffsetOverflow {
                file_length: d.len() as u64,
                wrong_image_offset: le32(d, 0x84),
                wrong_image_length: le32(d, 0x8C),
            },
        )
    } else {
        Ok((le32(d, 0x84), le32(d, 0x8C)))
    }
}

/// Checks the magic numbers and lengths of the header of `image` and
/// returns the offset and length of the image body.
pub fn check_header(image: &[u8]) -> (r: Result<(u32, u32), Error>)
    ensures
        match r {
            Ok(v) => header_check_spec(image@) == Ok::<_, ErrorView>(v),
            Err(e) => header_check_spec(image@) == Err::<(u32, u32), _>(e@),
        },
{
    let file_length: usize = image.len();
    if file_length < 4 {
        return Err(Error::Io(IoErrorKind::UnexpectedEof));
    }
    let head_magic = read_be32(image, 0);
    if head_magic != HEAD_MAGIC {
        return Err(Error::MagicNumber { wrong_magic: head_magic });
    }
    if (file_length as u64) < HEAD_LENGTH {
        return Err(Error::HeadLength { wrong_length: file_length as u64 });
    }
    let flash_magic = read_be32(image, 0x08);
    if flash_magic != FLASH_MAGIC {
        return Err(Error::FlashConfigMagic { wrong_magic: flash_magic });
    }
    let clock_magic = read_be32(image, 0x64);
    if clock_magic != CLOCK_MAGIC {
        return Err(Error::ClockConfigMagic { wrong_magic: clock_magic });
    }
    let group_image_offset = read_le32(image, 0x84);
    let image_body_length = read_le32(image, 0x8C);
    if group_image_offset as u64 + image_body_length as u64 > file_length as u64 {
        return Err(
            Error::ImageOffsetOverflow {
                file_length: file_length as u64,
                wrong_image_offset: group_image_offset,
                wrong_image_length: image_body_length,
            },
        );
    }
    Ok((group_image_offset, image_body_length))
}

/// The image body: `length` bytes from `offset` on.
pub open spec fn hashed_body(d: Seq<u8>, offset: u32, length: u32) -> Seq<u8> {
    d.subrange(offset as int, offset + length)
}

/// The image body of `image`: `length` bytes from `offset` on.
fn image_body(image: &[u8], offset: u32, length: u32) -> (r: &[u8])
    requires
        offset + length <= image@.len(),
    ensures
        r@ == hashed_body(image@, offset, length),
{
    let n: usize = image.len();
    assert(offset + length <= n);
    let end: usize = offset as usize + length as usize;
    let body: &[u8] = &image[offset as usize..end];
    assert(body@ =~= hashed_body(image@, offset, length));
    body
}

/// The first 0x15C header bytes, with the hash field replaced by `hash`
/// when there is one.
pub open spec fn crc_input(d: Seq<u8>, hash: Option<Seq<u8>>) -> Seq<u8> {
    match hash {
        Some(h) => d.subrange(0, 0x90) + h + d.subrange(0xB0, 0x15C),
        None => d.subrange(0, 0x15C),
    }
}

/// What [`check`] returns for the image `d`.
pub open spec fn check_spec(d: Seq<u8>) -> Result<(Option<Seq<u8>>, Option<u32>), ErrorView> {
    match header_check_spec(d) {
        Err(e) => Err(e),
        Ok((offset, length)) => {
            let calculated = sha256_digest(hashed_body(d, offset, length));
            match hash_operation_spec(d.subrange(0x90, 0xB0), calculated) {
                Err(e) => Err(e),
                Ok(refill) => {
                    let crc = crc32_iso_hdlc(crc_input(d, refill));
                    let refill_crc = if le32(d, 0x15C) != crc || refill is Some {
                        Some(crc)
                    } else {
                        None
                    };
                    Ok((refill, refill_crc))
                },
            }
        },
    }
}

/// Check the image without modifying it, returning suggested operations.
///
/// The header must carry the right magic numbers and hold the whole body.
/// The hash covers the image body: as many bytes as the header's body
/// length gives, from the body offset on. A hash that differs from the one in the
/// header is an error, unless the header holds a placeholder hash, which
/// is then refilled. The header CRC is refilled when it is wrong or when
/// the hash is refilled.
pub fn check(image: &[u8]) -> (r: Result<Operations, Error>)
    ensures
        check_view(r) == check_spec(image@),
        r matches Ok(ops) ==> (ops.refill_hash matches Some(h) ==> h@.len() == 32),
{
    let (offset, length) = match check_header(image) {
        Ok(v) => v,
        Err(e) => return Err(e),
    };
    let body: &[u8] = image_body(image, offset, length);
    let calculated = sha256(body);
    let actual: &[u8] = &image[0x90..0xB0];
    let refill_hash = match hash_operation(actual, calculated.as_slice()) {
        Ok(h) => h,
        Err(e) => return Err(e),
    };
    let mut header: Vec<u8> = vstd::slice::slice_to_vec(&image[0..0x15C]);
    let hash_refilled = match &refill_hash {
        Some(h) => {
            let mut k: usize = 0;
            while k < 32
                invariant
                    k <= 32,
                    h@.len() == 32,
                    header@.len() == 0x15C,
                    forall|j: int| 0 <= j < 0x90 ==> header@[j] == image@[j],
                    forall|j: int| 0xB0 <= j < 0x15C ==> header@[j] == image@[j],
                    forall|j: int| 0x90 <= j < 0x90 + k ==> header@[j] == h@[j - 0x90],
                decreases 32 - k,
            {
                header.set(0x90 + k, h[k]);
                k = k + 1;
            }
            assert(header@ =~= crc_input(image@, Some(h@)));
            true
        },
        None => {
            assert(header@ =~= crc_input(image@, None));
            false
        },
    };
    let calculated_crc = crc32(header.as_slice());
    let read_crc = read_le32(image, 0x15C);
    let refill_header_crc = header_crc_operation(read_crc, calculated_crc, hash_refilled);
    Ok(Operations { refill_hash, refill_header_crc })
}

/// `d` after writing `b` at position `pos`, as a file write does: the data
/// grows when the write runs past its end, with zeros in any gap.
pub open spec fn write_at(d: Seq<u8>, pos: int, b: Seq<u8>) -> Seq<u8> {
    let len = if d.len() < pos + b.len() { pos + b.len() } else { d.len() as int };
    Seq::new(
        len as nat,
        |i: int|
            if pos <= i < pos + b.len() {
                b[i - pos]
            } else if i < d.len() {
                d[i]
            } else {
                0u8
            },
    )
}

/// Writes `b` at position `pos` of `image`, growing it with zeros when the
/// write runs past its end.
pub fn write_at_pos(image: &mut Vec<u8>, pos: usize, b: &[u8])
    requires
        pos + b@.len() <= usize::MAX,
    ensures
        final(image)@ == write_at(old(image)@, pos as int, b@),
{
    let end: usize = pos + b.len();
    while image.len() < end
        invariant
            end == pos + b@.len(),
            image@.len() <= end || image@.len() == old(image)@.len(),
            image@.len() >= old(image)@.len(),
            forall|j: int| 0 <= j < old(image)@.len() ==> image@[j] == old(image)@[j],
            forall|j: int| old(image)@.len() <= j < image@.len() ==> image@[j] == 0u8,
        decreases end - image@.len(),
    {
        image.push(0);
    }
    let ghost grown = image@;
    assert(grown.len() == if old(image)@.len() < end { end as int } else { old(image)@.len() as int });
    let mut k: usize = 0;
    while k < b.len()
        invariant
            end == pos + b@.len(),
            k <= b@.len(),
            image@.len() == grown.len(),
            grown.len() >= end,
            forall|j: int| 0 <= j < image@.len() && !(pos <= j < pos + k) ==> image@[j] == grown[j],
            forall|j: int| pos <= j < pos + k ==> image@[j] == b@[j - pos],
        decreases b@.len() - k,
    {
        image.set(pos + k, b[k]);
        k = k + 1;
    }
    assert forall|j: int| 0 <= j < image@.len() implies #[trigger] image@[j] == write_at(old(image)@, pos as int, b@)[j] by {
        if !(pos <= j < pos + b@.len()) {
            assert(image@[j] == grown[j]);
        }
    }
    assert(image@ =~= write_at(old(image)@, pos as int, b@));
}

/// What [`process`] makes of the image `d`.
pub open spec fn process_spec(d: Seq<u8>, hash: Option<Seq<u8>>, crc: Option<u32>) -> Seq<u8> {
    let d1 = match hash {
        Some(h) => write_at(d, 0x90, h.subrange(0, 32)),
        None => d,
    };
    match crc {
        Some(c) => write_at(d1, 0x15C, le_bytes(c)),
        None => d1,
    }
}

/// Process the image from operations: write the first 32 bytes of the
/// refilled hash at 0x90 and the refilled CRC, little-endian, at 0x15C.
pub fn process(image: &mut Vec<u8>, ops: &Operations) -> (r: Result<(), Error>)
    requires
        ops.refill_hash is Some ==> ops.refill_hash->0@.len() >= 32,
    ensures
        r is Ok,
        final(image)@ == process_spec(old(image)@, ops@.0, ops@.1),
{
    if let Some(hash_to_fill) = &ops.refill_hash {
        write_at_pos(image, 0x90, &hash_to_fill.as_slice()[0..32]);
    }
    if let Some(header_crc_to_fill) = ops.refill_header_crc {
        let bytes = to_le_bytes(header_crc_to_fill);
        write_at_pos(image, 0x15C, &bytes);
    }
    Ok(())
}

/// The little-endian word of the little-endian bytes of `x` is `x`.
pub proof fn lemma_le_word_bytes(x: u32)
    ensures
        le_word(le_bytes(x)[0], le_bytes(x)[1], le_bytes(x)[2], le_bytes(x)[3]) == x,
{
    let b0 = x % 256;
    let b1 = (x / 256) % 256;
    let b2 = (x / 65536) % 256;
    let b3 = x / 16777216;
    assert(b0 + 256 * b1 + 65536 * b2 + 16777216 * b3 == x) by (nonlinear_arith)
        requires
            b0 == x % 256,
            b1 == (x / 256) % 256,
            b2 == (x / 65536) % 256,
            b3 == x / 16777216,
    ;
}

/// Whether the body of `length` bytes at `offset` leaves the hash field
/// (0x90 to 0xB0) and the CRC field (0x15C to 0x160) alone.
pub open spec fn body_clear_of_patches(offset: int, length: int) -> bool {
    length == 0 || ((offset + length <= 0x90 || offset >= 0xB0) && (offset + length <= 0x15C || offset >= 0x160))
}

/// Patching an image with the operations that checking it suggests gives
/// an image that checks with nothing left to refill: the hash field then
/// holds the body's hash and the CRC field the header's CRC. This holds
/// when the body overlaps neither the hash field nor the CRC field, so
/// that patching the header leaves the body alone.
pub proof fn lemma_process_makes_valid(d: Seq<u8>, hash: Option<Seq<u8>>, crc: Option<u32>)
    requires
        check_spec(d) == Ok::<_, ErrorView>((hash, crc)),
        hash matches Some(h) ==> h.len() == 32,
        body_clear_of_patches(le32(d, 0x84) as int, le32(d, 0x8C) as int),
    ensures
        check_spec(process_spec(d, hash, crc)) == Ok::<_, ErrorView>((None::<Seq<u8>>, None::<u32>)),
{
    let d1 = match hash {
        Some(h) => write_at(d, 0x90, h.subrange(0, 32)),
        None => d,
    };
    let d2 = process_spec(d, hash, crc);
    assert(d.len() >= 0x160);
    assert(d1.len() == d.len());
    assert(d2.len() == d.len());
    assert(forall|i: int| 0 <= i < d.len() && !(0x90 <= i < 0xB0) && !(0x15C <= i < 0x160) ==> #[trigger] d2[i] == d[i]);
    let offset = le32(d, 0x84);
    let length = le32(d, 0x8C);
    assert(header_check_spec(d) == Ok::<_, ErrorView>((offset, length)));
    assert(header_check_spec(d2) == Ok::<_, ErrorView>((offset, length)));
    assert(hashed_body(d2, offset, length) =~= hashed_body(d, offset, length));
    let calculated = sha256_digest(hashed_body(d, offset, length));
    let refill = match hash_operation_spec(d.subrange(0x90, 0xB0), calculated) {
        Ok(r) => r,
        Err(_) => None,
    };
    assert(refill == hash);
    match hash {
        Some(h) => {
            assert(h == calculated);
            assert(d2.subrange(0x90, 0xB0) =~= h);
            assert(crc_input(d2, None) =~= crc_input(d, Some(h)));
        },
        None => {
            assert(d2.subrange(0x90, 0xB0) =~= d.subrange(0x90, 0xB0));
            assert(crc_input(d2, None) =~= crc_input(d, None));
        },
    }
    assert(hash_operation_spec(d2.subrange(0x90, 0xB0), calculated) == Ok::<_, ErrorView>(None::<Seq<u8>>));
    let c0 = crc32_iso_hdlc(crc_input(d, hash));
    match crc {
        Some(c) => {
            assert(c == c0);
            lemma_le_word_bytes(c);
            assert(le32(d2, 0x15C) == c);
        },
        None => {
            assert(le32(d2, 0x15C) == le32(d, 0x15C));
        },
    }
}

} // verus!
