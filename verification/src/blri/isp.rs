//! Commands of the in-system programming (ISP) protocol of the boot ROM.
use vstd::prelude::*;

use crate::bits;

verus! {

/// Command code that reads the boot information.
pub const GET_BOOT_INFO: u8 = 0x10;

/// Command code that erases a range of flash.
pub const ERASE_FLASH: u8 = 0x30;

/// Command code that writes data to flash.
pub const WRITE_FLASH: u8 = 0x31;

/// Error of the ISP protocol.
#[derive(Debug, PartialEq, Eq, Structural)]
pub enum IspError {
    /// The response payload does not have the length the command expects.
    ResponseLength { wrong_length: usize },
}

/// Little-endian bytes of a 32-bit word.
pub open spec fn le_bytes(x: u32) -> Seq<u8> {
    seq![(x % 256) as u8, ((x / 256) % 256) as u8, ((x / 65536) % 256) as u8, (x / 16777216) as u8]
}

/// The 32-bit word whose little-endian bytes are `b0`, `b1`, `b2`, `b3`.
pub open spec fn le_word(b0: u8, b1: u8, b2: u8, b3: u8) -> u32 {
    (b0 + 256 * b1 + 65536 * b2 + 16777216 * b3) as u32
}

/// Little-endian bytes of `x`.
pub fn to_le_bytes(x: u32) -> (r: [u8; 4])
    ensures
        r@ == le_bytes(x),
{
    [(x % 256) as u8, ((x / 256) % 256) as u8, ((x / 65536) % 256) as u8, (x / 16777216) as u8]
}

/// A command of the ISP protocol: its code, the data it sends and how its
/// response is read.
pub trait IspCommand {
    /// What the response decodes to.
    type Response;

    /// Command code.
    const COMMAND: u8;

    /// Whether the response carries a payload.
    const RESPONSE_PAYLOAD: bool;

    /// The data sent after the packet header.
    spec fn spec_data(&self) -> Seq<u8>;

    /// Whether a response of these bytes can be decoded without a fault.
    spec fn accepts_response(bytes: Seq<u8>) -> bool;

    /// What a response of these bytes decodes to.
    spec fn spec_response(bytes: Seq<u8>) -> Result<Self::Response, IspError>;

    /// Number of data bytes.
    fn data_size(&self) -> (r: usize)
        requires
            self.spec_data().len() <= usize::MAX,
        ensures
            r == self.spec_data().len(),
    ;

    /// Writes the data into `buf`, which has room for exactly the data.
    fn write_packet_data(&self, buf: &mut [u8])
        requires
            old(buf)@.len() == self.spec_data().len(),
        ensures
            final(buf)@ == self.spec_data(),
    ;

    /// Decodes a response.
    fn parse_response(bytes: &[u8]) -> (r: Result<Self::Response, IspError>)
        requires
            Self::accepts_response(bytes@),
        ensures
            r == Self::spec_response(bytes@),
    ;
}

/// Boot information reported by the boot ROM.
pub struct BootInfo {
    pub boot_rom_version: [u8; 4],
    /// Reserved bytes 4 to 7 of the response.
    pub _reserved1: [u8; 4],
    pub flash_info_from_boot: u32,
    pub chip_id: [u8; 6],
    /// Reserved bytes 18 to 23 of the response.
    pub _reserved2: [u8; 6],
}

impl BootInfo {
    /// The flash pin configuration: bits 14 to 18 of the flash information.
    pub fn flash_pin(&self) -> (r: u32)
        ensures
            r == bits::field(self.flash_info_from_boot, 14, 5),
    {
        bits::get_field(self.flash_info_from_boot, 14, 5)
    }
}

/// The boot information a 24-byte response decodes to.
pub open spec fn boot_info_of(bytes: Seq<u8>) -> BootInfo
    recommends
        bytes.len() == 24,
{
    BootInfo {
        boot_rom_version: [bytes[0], bytes[1], bytes[2], bytes[3]],
        _reserved1: [bytes[4], bytes[5], bytes[6], bytes[7]],
        flash_info_from_boot: le_word(bytes[8], bytes[9], bytes[10], bytes[11]),
        chip_id: [bytes[12], bytes[13], bytes[14], bytes[15], bytes[16], bytes[17]],
        _reserved2: [bytes[18], bytes[19], bytes[20], bytes[21], bytes[22], bytes[23]],
    }
}

/// The command that reads the boot information.
pub struct GetBootInfo;

impl IspCommand for GetBootInfo {
    type Response = BootInfo;

    const COMMAND: u8 = GET_BOOT_INFO;

    const RESPONSE_PAYLOAD: bool = true;

    open spec fn spec_data(&self) -> Seq<u8> {
        Seq::empty()
    }

    open spec fn accepts_response(bytes: Seq<u8>) -> bool {
        true
    }

    open spec fn spec_response(bytes: Seq<u8>) -> Result<BootInfo, IspError> {
        if bytes.len() != 24 {
            Err(IspError::ResponseLength { wrong_length: bytes.len() as usize })
        } else {
            Ok(boot_info_of(bytes))
        }
    }

    fn data_size(&self) -> (r: usize) {
        0
    }

    fn write_packet_data(&self, buf: &mut [u8]) {
        assert(buf@ =~= Seq::<u8>::empty());
    }

    fn parse_response(bytes: &[u8]) -> (r: Result<BootInfo, IspError>) {
        if bytes.len() != 24 {
            return Err(IspError::ResponseLength { wrong_length: bytes.len() });
        }
        let info = BootInfo {
            boot_rom_version: [bytes[0], bytes[1], bytes[2], bytes[3]],
            _reserved1: [bytes[4], bytes[5], bytes[6], bytes[7]],
            flash_info_from_boot: bytes[8] as u32 + 256 * (bytes[9] as u32) + 65536 * (bytes[10] as u32)
                + 16777216 * (bytes[11] as u32),
            chip_id: [bytes[12], bytes[13], bytes[14], bytes[15], bytes[16], bytes[17]],
            _reserved2: [bytes[18], bytes[19], bytes[20], bytes[21], bytes[22], bytes[23]],
        };
        Ok(info)
    }
}

/// The command that erases the flash from `start` to `end`.
pub struct EraseFlash {
    start: [u8; 4],
    end: [u8; 4],
}

impl EraseFlash {
    /// The erase command for the addresses `start_addr` to `end_addr`.
    pub fn new(start_addr: u32, end_addr: u32) -> (r: Self)
        ensures
            r.spec_data() == le_bytes(start_addr) + le_bytes(end_addr),
    {
        Self { start: to_le_bytes(start_addr), end: to_le_bytes(end_addr) }
    }
}

impl IspCommand for EraseFlash {
    type Response = ();

    const COMMAND: u8 = ERASE_FLASH;

    const RESPONSE_PAYLOAD: bool = false;

    closed spec fn spec_data(&self) -> Seq<u8> {
        self.start@ + self.end@
    }

    open spec fn accepts_response(bytes: Seq<u8>) -> bool {
        bytes.len() == 0
    }

    open spec fn spec_response(bytes: Seq<u8>) -> Result<(), IspError> {
        Ok(())
    }

    fn data_size(&self) -> (r: usize) {
        8
    }

    fn write_packet_data(&self, buf: &mut [u8]) {
        let mut k: usize = 0;
        while k < 4
            invariant
                buf@.len() == 8,
                k <= 4,
                forall|j: int| 0 <= j < k ==> buf@[j] == self.start@[j] && buf@[j + 4] == self.end@[j],
            decreases 4 - k,
        {
            buf[k] = self.start[k];
            buf[k + 4] = self.end[k];
            k = k + 1;
        }
        assert(buf@ =~= self.start@ + self.end@);
    }

    fn parse_response(bytes: &[u8]) -> (r: Result<(), IspError>) {
        Ok(())
    }
}

/// The command that writes `payload` to flash from address `start`.
pub struct WriteFlash<'a> {
    start: [u8; 4],
    payload: &'a [u8],
}

impl<'a> WriteFlash<'a> {
    /// The write command for `payload` at address `start_addr`.
    pub fn new(start_addr: u32, payload: &'a [u8]) -> (r: Self)
        ensures
            r.spec_data() == le_bytes(start_addr) + payload@,
    {
        Self { start: to_le_bytes(start_addr), payload }
    }
}

impl<'a> IspCommand for WriteFlash<'a> {
    type Response = ();

    const COMMAND: u8 = WRITE_FLASH;

    const RESPONSE_PAYLOAD: bool = false;

    closed spec fn spec_data(&self) -> Seq<u8> {
        self.start@ + self.payload@
    }

    open spec fn accepts_response(bytes: Seq<u8>) -> bool {
        bytes.len() == 0
    }

    open spec fn spec_response(bytes: Seq<u8>) -> Result<(), IspError> {
        Ok(())
    }

    fn data_size(&self) -> (r: usize) {
        4 + self.payload.len()
    }

    fn write_packet_data(&self, buf: &mut [u8]) {
        let n = self.payload.len();
        let total = buf.len();
        let mut k: usize = 0;
        while k < 4
            invariant
                buf@.len() == 4 + n,
                n == self.payload@.len(),
                k <= 4,
                forall|j: int| 0 <= j < k ==> buf@[j] == self.start@[j],
            decreases 4 - k,
        {
            buf[k] = self.start[k];
            k = k + 1;
        }
        let mut k: usize = 0;
        while k < n
            invariant
                buf@.len() == 4 + n,
                total == buf@.len(),
                n == self.payload@.len(),
                k <= n,
                forall|j: int| 0 <= j < 4 ==> buf@[j] == self.start@[j],
                forall|j: int| 0 <= j < k ==> buf@[j + 4] == self.payload@[j],
            decreases n - k,
        {
            buf[k + 4] = self.payload[k];
            k = k + 1;
        }
        assert(buf@ =~= self.start@ + self.payload@);
    }

    fn parse_response(bytes: &[u8]) -> (r: Result<(), IspError>) {
        Ok(())
    }
}

} // verus!
