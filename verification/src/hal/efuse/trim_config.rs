//! Locations of the trim values in the eFuse of the BL808, BL616 and
//! BL702.
use vstd::prelude::*;

verus! {

/// Trim device types supported across different chip families.
#[derive(Clone, Copy, Debug, PartialEq, Eq, Hash, Structural)]
pub enum TrimDev {
    /// 32MHz RC oscillator trim.
    Rc32M,
    /// 32kHz RC oscillator trim.
    Rc32K,
    /// General purpose ADC gain trim.
    Gpadc,
    /// Temperature sensor trim.
    Tsen,
    /// USB 2.0 PHY trim.
    Usb20,
    /// DCDC trim.
    DcdcTrim,
    /// DCDC output voltage trim.
    DcdcVout,
    /// DCDC disable control.
    DcdcDis,
    /// LDO 1.1V trim.
    Ldo11Trim,
    /// LDO 1.5V trim.
    Ldo15,
    /// LDO 1.8V selection.
    Ldo18Sel,
    /// LDO 1.8V trim.
    Ldo18Trim,
    /// LDO 1.8V bypass control.
    Ldo18Bypass,
    /// LDO 3.3V trim.
    Ldo33Trim,
    /// Crystal oscillator trim 0.
    Xtal0,
    /// Crystal oscillator trim 1.
    Xtal1,
    /// Crystal oscillator trim 2.
    Xtal2,
    /// IPTAT reference trim.
    Iptat,
    /// ICX reference trim.
    Icx,
    /// High power p-offset 0.
    HpPoffset0,
    /// High power p-offset 1.
    HpPoffset1,
    /// High power p-offset 2.
    HpPoffset2,
    /// Low power p-offset 0.
    LpPoffset0,
    /// Low power p-offset 1.
    LpPoffset1,
    /// Low power p-offset 2.
    LpPoffset2,
    /// Buzzer p-offset 0.
    BzPoffset0,
    /// Buzzer p-offset 1.
    BzPoffset1,
    /// Buzzer p-offset 2.
    BzPoffset2,
    /// Temperature measure point 0.
    TmpMp0,
    /// Temperature measure point 1.
    TmpMp1,
    /// Temperature measure point 2.
    TmpMp2,
    /// Audio ADC gain trim.
    AuadcGain,
    /// Audio ADC offset trim.
    AuadcOffset,
    /// PSRAM trim settings.
    PsramTrim,
}

/// Trim configuration structure.
#[derive(Clone, Copy, Debug, PartialEq, Eq, Hash, Structural)]
pub struct TrimCfg {
    /// Trim device type.
    pub dev: TrimDev,
    /// Enable bit address.
    pub en_addr: u16,
    /// Parity bit address.
    pub parity_addr: u16,
    /// Value bits starting address.
    pub value_addr: u16,
    /// Value length in bits.
    pub value_len: u8,
}

/// Trim data read from efuse.
#[derive(Clone, Copy, Debug, Default)]
pub struct TrimData {
    /// Enable status.
    pub en: bool,
    /// Trim parity.
    pub parity: bool,
    /// Trim empty.
    pub empty: bool,
    /// Actual trim value.
    pub value: u32,
    /// Length of trim value in bits.
    pub len: u8,
}

/// Number of trim devices, the size of the per-device table.
pub const TRIM_DEV_COUNT: usize = 34;

/// The chip families that have a trim table.
#[derive(Clone, Copy, Debug, PartialEq, Eq, Hash, Structural)]
pub enum TrimChip {
    /// BL808.
    Bl808,
    /// BL616.
    Bl616,
    /// BL702.
    Bl702,
}

/// Where the BL808 keeps the trim of a device: its enable, parity and
/// value bits (addresses in bits from the start of the eFuse), or `None`
/// for a device the chip has no trim for.
pub open spec fn bl808_trim_cfg(dev: TrimDev) -> Option<TrimCfg> {
    match dev {
        TrimDev::Rc32M => Some(TrimCfg { dev: TrimDev::Rc32M, en_addr: 0x3C1, parity_addr: 0x3C0, value_addr: 0x3E4, value_len: 8 }),
        TrimDev::Rc32K => Some(TrimCfg { dev: TrimDev::Rc32K, en_addr: 0x773, parity_addr: 0x772, value_addr: 0x768, value_len: 10 }),
        TrimDev::Gpadc => Some(TrimCfg { dev: TrimDev::Gpadc, en_addr: 0x79B, parity_addr: 0x79A, value_addr: 0x78E, value_len: 12 }),
        TrimDev::Tsen => Some(TrimCfg { dev: TrimDev::Tsen, en_addr: 0x78D, parity_addr: 0x78C, value_addr: 0x780, value_len: 12 }),
        TrimDev::Usb20 => Some(TrimCfg { dev: TrimDev::Usb20, en_addr: 0x7CF, parity_addr: 0x7CE, value_addr: 0x7C8, value_len: 6 }),
        TrimDev::DcdcTrim => Some(TrimCfg { dev: TrimDev::DcdcTrim, en_addr: 0x3DF, parity_addr: 0x3DE, value_addr: 0x3DA, value_len: 4 }),
        TrimDev::DcdcVout => None,
        TrimDev::DcdcDis => None,
        TrimDev::Ldo11Trim => Some(TrimCfg { dev: TrimDev::Ldo11Trim, en_addr: 0x779, parity_addr: 0x778, value_addr: 0x774, value_len: 4 }),
        TrimDev::Ldo15 => None,
        TrimDev::Ldo18Sel => Some(TrimCfg { dev: TrimDev::Ldo18Sel, en_addr: 0x3D9, parity_addr: 0x3D8, value_addr: 0x3D4, value_len: 4 }),
        TrimDev::Ldo18Trim => Some(TrimCfg { dev: TrimDev::Ldo18Trim, en_addr: 0x77F, parity_addr: 0x77E, value_addr: 0x77A, value_len: 4 }),
        TrimDev::Ldo18Bypass => None,
        TrimDev::Ldo33Trim => Some(TrimCfg { dev: TrimDev::Ldo33Trim, en_addr: 0x3CD, parity_addr: 0x3CC, value_addr: 0x3C8, value_len: 4 }),
        TrimDev::Xtal0 => None,
        TrimDev::Xtal1 => None,
        TrimDev::Xtal2 => None,
        TrimDev::Iptat => None,
        TrimDev::Icx => None,
        TrimDev::HpPoffset0 => None,
        TrimDev::HpPoffset1 => None,
        TrimDev::HpPoffset2 => None,
        TrimDev::LpPoffset0 => None,
        TrimDev::LpPoffset1 => None,
        TrimDev::LpPoffset2 => None,
        TrimDev::BzPoffset0 => None,
        TrimDev::BzPoffset1 => None,
        TrimDev::BzPoffset2 => None,
        TrimDev::TmpMp0 => None,
        TrimDev::TmpMp1 => None,
        TrimDev::TmpMp2 => None,
        TrimDev::AuadcGain => None,
        TrimDev::AuadcOffset => None,
        TrimDev::PsramTrim => None,
    }
}

/// Looks up the BL808 trim table.
fn bl808_trim_cfg_of(dev: TrimDev) -> (r: Option<TrimCfg>)
    ensures
        r == bl808_trim_cfg(dev),
{
    match dev {
        TrimDev::Rc32M => Some(TrimCfg { dev: TrimDev::Rc32M, en_addr: 0x3C1, parity_addr: 0x3C0, value_addr: 0x3E4, value_len: 8 }),
        TrimDev::Rc32K => Some(TrimCfg { dev: TrimDev::Rc32K, en_addr: 0x773, parity_addr: 0x772, value_addr: 0x768, value_len: 10 }),
        TrimDev::Gpadc => Some(TrimCfg { dev: TrimDev::Gpadc, en_addr: 0x79B, parity_addr: 0x79A, value_addr: 0x78E, value_len: 12 }),
        TrimDev::Tsen => Some(TrimCfg { dev: TrimDev::Tsen, en_addr: 0x78D, parity_addr: 0x78C, value_addr: 0x780, value_len: 12 }),
        TrimDev::Usb20 => Some(TrimCfg { dev: TrimDev::Usb20, en_addr: 0x7CF, parity_addr: 0x7CE, value_addr: 0x7C8, value_len: 6 }),
        TrimDev::DcdcTrim => Some(TrimCfg { dev: TrimDev::DcdcTrim, en_addr: 0x3DF, parity_addr: 0x3DE, value_addr: 0x3DA, value_len: 4 }),
        TrimDev::DcdcVout => None,
        TrimDev::DcdcDis => None,
        TrimDev::Ldo11Trim => Some(TrimCfg { dev: TrimDev::Ldo11Trim, en_addr: 0x779, parity_addr: 0x778, value_addr: 0x774, value_len: 4 }),
        TrimDev::Ldo15 => None,
        TrimDev::Ldo18Sel => Some(TrimCfg { dev: TrimDev::Ldo18Sel, en_addr: 0x3D9, parity_addr: 0x3D8, value_addr: 0x3D4, value_len: 4 }),
        TrimDev::Ldo18Trim => Some(TrimCfg { dev: TrimDev::Ldo18Trim, en_addr: 0x77F, parity_addr: 0x77E, value_addr: 0x77A, value_len: 4 }),
        TrimDev::Ldo18Bypass => None,
        TrimDev::Ldo33Trim => Some(TrimCfg { dev: TrimDev::Ldo33Trim, en_addr: 0x3CD, parity_addr: 0x3CC, value_addr: 0x3C8, value_len: 4 }),
        TrimDev::Xtal0 => None,
        TrimDev::Xtal1 => None,
        TrimDev::Xtal2 => None,
        TrimDev::Iptat => None,
        TrimDev::Icx => None,
        TrimDev::HpPoffset0 => None,
        TrimDev::HpPoffset1 => None,
        TrimDev::HpPoffset2 => None,
        TrimDev::LpPoffset0 => None,
        TrimDev::LpPoffset1 => None,
        TrimDev::LpPoffset2 => None,
        TrimDev::BzPoffset0 => None,
        TrimDev::BzPoffset1 => None,
        TrimDev::BzPoffset2 => None,
        TrimDev::TmpMp0 => None,
        TrimDev::TmpMp1 => None,
        TrimDev::TmpMp2 => None,
        TrimDev::AuadcGain => None,
        TrimDev::AuadcOffset => None,
        TrimDev::PsramTrim => None,
    }
}

/// Where the BL616 keeps the trim of a device: its enable, parity and
/// value bits (addresses in bits from the start of the eFuse), or `None`
/// for a device the chip has no trim for.
pub open spec fn bl616_trim_cfg(dev: TrimDev) -> Option<TrimCfg> {
    match dev {
        TrimDev::Rc32M => Some(TrimCfg { dev: TrimDev::Rc32M, en_addr: 0x3C1, parity_addr: 0x3C0, value_addr: 0x3E4, value_len: 8 }),
        TrimDev::Rc32K => Some(TrimCfg { dev: TrimDev::Rc32K, en_addr: 0x773, parity_addr: 0x772, value_addr: 0x768, value_len: 10 }),
        TrimDev::Gpadc => Some(TrimCfg { dev: TrimDev::Gpadc, en_addr: 0x79B, parity_addr: 0x79A, value_addr: 0x78E, value_len: 12 }),
        TrimDev::Tsen => Some(TrimCfg { dev: TrimDev::Tsen, en_addr: 0x78D, parity_addr: 0x78C, value_addr: 0x780, value_len: 12 }),
        TrimDev::Usb20 => Some(TrimCfg { dev: TrimDev::Usb20, en_addr: 0x7CF, parity_addr: 0x7CE, value_addr: 0x7C8, value_len: 6 }),
        TrimDev::DcdcTrim => Some(TrimCfg { dev: TrimDev::DcdcTrim, en_addr: 0x3DF, parity_addr: 0x3DE, value_addr: 0x3DA, value_len: 4 }),
        TrimDev::DcdcVout => Some(TrimCfg { dev: TrimDev::DcdcVout, en_addr: 0x7B0, parity_addr: 0x7AF, value_addr: 0x7AA, value_len: 5 }),
        TrimDev::DcdcDis => Some(TrimCfg { dev: TrimDev::DcdcDis, en_addr: 0x7B3, parity_addr: 0x7B2, value_addr: 0x7B1, value_len: 1 }),
        TrimDev::Ldo11Trim => Some(TrimCfg { dev: TrimDev::Ldo11Trim, en_addr: 0x3C7, parity_addr: 0x3C6, value_addr: 0x3C2, value_len: 4 }),
        TrimDev::Ldo15 => Some(TrimCfg { dev: TrimDev::Ldo15, en_addr: 0x35F, parity_addr: 0x35E, value_addr: 0x35B, value_len: 3 }),
        TrimDev::Ldo18Sel => Some(TrimCfg { dev: TrimDev::Ldo18Sel, en_addr: 0x3D9, parity_addr: 0x3D8, value_addr: 0x3D4, value_len: 4 }),
        TrimDev::Ldo18Trim => Some(TrimCfg { dev: TrimDev::Ldo18Trim, en_addr: 0x3D3, parity_addr: 0x3D2, value_addr: 0x3CE, value_len: 4 }),
        TrimDev::Ldo18Bypass => Some(TrimCfg { dev: TrimDev::Ldo18Bypass, en_addr: 0x7A9, parity_addr: 0x7A8, value_addr: 0x7A4, value_len: 1 }),
        TrimDev::Ldo33Trim => Some(TrimCfg { dev: TrimDev::Ldo33Trim, en_addr: 0x3CD, parity_addr: 0x3CC, value_addr: 0x3C8, value_len: 4 }),
        TrimDev::Xtal0 => Some(TrimCfg { dev: TrimDev::Xtal0, en_addr: 0x767, parity_addr: 0x766, value_addr: 0x760, value_len: 6 }),
        TrimDev::Xtal1 => Some(TrimCfg { dev: TrimDev::Xtal1, en_addr: 0x79F, parity_addr: 0x79E, value_addr: 0x7BA, value_len: 6 }),
        TrimDev::Xtal2 => Some(TrimCfg { dev: TrimDev::Xtal2, en_addr: 0x79D, parity_addr: 0x79C, value_addr: 0x7B4, value_len: 6 }),
        TrimDev::Iptat => Some(TrimCfg { dev: TrimDev::Iptat, en_addr: 0x3BF, parity_addr: 0x3BE, value_addr: 0x356, value_len: 5 }),
        TrimDev::Icx => Some(TrimCfg { dev: TrimDev::Icx, en_addr: 0x3BD, parity_addr: 0x3BC, value_addr: 0x3B6, value_len: 6 }),
        TrimDev::HpPoffset0 => Some(TrimCfg { dev: TrimDev::HpPoffset0, en_addr: 0x67A, parity_addr: 0x60F, value_addr: 0x600, value_len: 15 }),
        TrimDev::HpPoffset1 => Some(TrimCfg { dev: TrimDev::HpPoffset1, en_addr: 0x67B, parity_addr: 0x61F, value_addr: 0x610, value_len: 15 }),
        TrimDev::HpPoffset2 => Some(TrimCfg { dev: TrimDev::HpPoffset2, en_addr: 0x67C, parity_addr: 0x62F, value_addr: 0x620, value_len: 15 }),
        TrimDev::LpPoffset0 => Some(TrimCfg { dev: TrimDev::LpPoffset0, en_addr: 0x67D, parity_addr: 0x63F, value_addr: 0x630, value_len: 15 }),
        TrimDev::LpPoffset1 => Some(TrimCfg { dev: TrimDev::LpPoffset1, en_addr: 0x67E, parity_addr: 0x64F, value_addr: 0x640, value_len: 15 }),
        TrimDev::LpPoffset2 => Some(TrimCfg { dev: TrimDev::LpPoffset2, en_addr: 0x67F, parity_addr: 0x65F, value_addr: 0x650, value_len: 15 }),
        TrimDev::BzPoffset0 => Some(TrimCfg { dev: TrimDev::BzPoffset0, en_addr: 0x69A, parity_addr: 0x679, value_addr: 0x660, value_len: 25 }),
        TrimDev::BzPoffset1 => Some(TrimCfg { dev: TrimDev::BzPoffset1, en_addr: 0x69B, parity_addr: 0x699, value_addr: 0x680, value_len: 25 }),
        TrimDev::BzPoffset2 => Some(TrimCfg { dev: TrimDev::BzPoffset2, en_addr: 0x69C, parity_addr: 0x6B9, value_addr: 0x6A0, value_len: 25 }),
        TrimDev::TmpMp0 => Some(TrimCfg { dev: TrimDev::TmpMp0, en_addr: 0x6C9, parity_addr: 0x6C8, value_addr: 0x6C0, value_len: 8 }),
        TrimDev::TmpMp1 => Some(TrimCfg { dev: TrimDev::TmpMp1, en_addr: 0x6D3, parity_addr: 0x6D2, value_addr: 0x6CA, value_len: 8 }),
        TrimDev::TmpMp2 => Some(TrimCfg { dev: TrimDev::TmpMp2, en_addr: 0x6DD, parity_addr: 0x6DC, value_addr: 0x6D4, value_len: 8 }),
        TrimDev::AuadcGain => Some(TrimCfg { dev: TrimDev::AuadcGain, en_addr: 0x6F9, parity_addr: 0x6F8, value_addr: 0x6E0, value_len: 24 }),
        TrimDev::AuadcOffset => Some(TrimCfg { dev: TrimDev::AuadcOffset, en_addr: 0x719, parity_addr: 0x718, value_addr: 0x700, value_len: 24 }),
        TrimDev::PsramTrim => Some(TrimCfg { dev: TrimDev::PsramTrim, en_addr: 0x74C, parity_addr: 0x74B, value_addr: 0x740, value_len: 11 }),
    }
}

/// Looks up the BL616 trim table.
fn bl616_trim_cfg_of(dev: TrimDev) -> (r: Option<TrimCfg>)
    ensures
        r == bl616_trim_cfg(dev),
{
    match dev {
        TrimDev::Rc32M => Some(TrimCfg { dev: TrimDev::Rc32M, en_addr: 0x3C1, parity_addr: 0x3C0, value_addr: 0x3E4, value_len: 8 }),
        TrimDev::Rc32K => Some(TrimCfg { dev: TrimDev::Rc32K, en_addr: 0x773, parity_addr: 0x772, value_addr: 0x768, value_len: 10 }),
        TrimDev::Gpadc => Some(TrimCfg { dev: TrimDev::Gpadc, en_addr: 0x79B, parity_addr: 0x79A, value_addr: 0x78E, value_len: 12 }),
        TrimDev::Tsen => Some(TrimCfg { dev: TrimDev::Tsen, en_addr: 0x78D, parity_addr: 0x78C, value_addr: 0x780, value_len: 12 }),
        TrimDev::Usb20 => Some(TrimCfg { dev: TrimDev::Usb20, en_addr: 0x7CF, parity_addr: 0x7CE, value_addr: 0x7C8, value_len: 6 }),
        TrimDev::DcdcTrim => Some(TrimCfg { dev: TrimDev::DcdcTrim, en_addr: 0x3DF, parity_addr: 0x3DE, value_addr: 0x3DA, value_len: 4 }),
        TrimDev::DcdcVout => Some(TrimCfg { dev: TrimDev::DcdcVout, en_addr: 0x7B0, parity_addr: 0x7AF, value_addr: 0x7AA, value_len: 5 }),
        TrimDev::DcdcDis => Some(TrimCfg { dev: TrimDev::DcdcDis, en_addr: 0x7B3, parity_addr: 0x7B2, value_addr: 0x7B1, value_len: 1 }),
        TrimDev::Ldo11Trim => Some(TrimCfg { dev: TrimDev::Ldo11Trim, en_addr: 0x3C7, parity_addr: 0x3C6, value_addr: 0x3C2, value_len: 4 }),
        TrimDev::Ldo15 => Some(TrimCfg { dev: TrimDev::Ldo15, en_addr: 0x35F, parity_addr: 0x35E, value_addr: 0x35B, value_len: 3 }),
        TrimDev::Ldo18Sel => Some(TrimCfg { dev: TrimDev::Ldo18Sel, en_addr: 0x3D9, parity_addr: 0x3D8, value_addr: 0x3D4, value_len: 4 }),
        TrimDev::Ldo18Trim => Some(TrimCfg { dev: TrimDev::Ldo18Trim, en_addr: 0x3D3, parity_addr: 0x3D2, value_addr: 0x3CE, value_len: 4 }),
        TrimDev::Ldo18Bypass => Some(TrimCfg { dev: TrimDev::Ldo18Bypass, en_addr: 0x7A9, parity_addr: 0x7A8, value_addr: 0x7A4, value_len: 1 }),
        TrimDev::Ldo33Trim => Some(TrimCfg { dev: TrimDev::Ldo33Trim, en_addr: 0x3CD, parity_addr: 0x3CC, value_addr: 0x3C8, value_len: 4 }),
        TrimDev::Xtal0 => Some(TrimCfg { dev: TrimDev::Xtal0, en_addr: 0x767, parity_addr: 0x766, value_addr: 0x760, value_len: 6 }),
        TrimDev::Xtal1 => Some(TrimCfg { dev: TrimDev::Xtal1, en_addr: 0x79F, parity_addr: 0x79E, value_addr: 0x7BA, value_len: 6 }),
        TrimDev::Xtal2 => Some(TrimCfg { dev: TrimDev::Xtal2, en_addr: 0x79D, parity_addr: 0x79C, value_addr: 0x7B4, value_len: 6 }),
        TrimDev::Iptat => Some(TrimCfg { dev: TrimDev::Iptat, en_addr: 0x3BF, parity_addr: 0x3BE, value_addr: 0x356, value_len: 5 }),
        TrimDev::Icx => Some(TrimCfg { dev: TrimDev::Icx, en_addr: 0x3BD, parity_addr: 0x3BC, value_addr: 0x3B6, value_len: 6 }),
        TrimDev::HpPoffset0 => Some(TrimCfg { dev: TrimDev::HpPoffset0, en_addr: 0x67A, parity_addr: 0x60F, value_addr: 0x600, value_len: 15 }),
        TrimDev::HpPoffset1 => Some(TrimCfg { dev: TrimDev::HpPoffset1, en_addr: 0x67B, parity_addr: 0x61F, value_addr: 0x610, value_len: 15 }),
        TrimDev::HpPoffset2 => Some(TrimCfg { dev: TrimDev::HpPoffset2, en_addr: 0x67C, parity_addr: 0x62F, value_addr: 0x620, value_len: 15 }),
        TrimDev::LpPoffset0 => Some(TrimCfg { dev: TrimDev::LpPoffset0, en_addr: 0x67D, parity_addr: 0x63F, value_addr: 0x630, value_len: 15 }),
        TrimDev::LpPoffset1 => Some(TrimCfg { dev: TrimDev::LpPoffset1, en_addr: 0x67E, parity_addr: 0x64F, value_addr: 0x640, value_len: 15 }),
        TrimDev::LpPoffset2 => Some(TrimCfg { dev: TrimDev::LpPoffset2, en_addr: 0x67F, parity_addr: 0x65F, value_addr: 0x650, value_len: 15 }),
        TrimDev::BzPoffset0 => Some(TrimCfg { dev: TrimDev::BzPoffset0, en_addr: 0x69A, parity_addr: 0x679, value_addr: 0x660, value_len: 25 }),
        TrimDev::BzPoffset1 => Some(TrimCfg { dev: TrimDev::BzPoffset1, en_addr: 0x69B, parity_addr: 0x699, value_addr: 0x680, value_len: 25 }),
        TrimDev::BzPoffset2 => Some(TrimCfg { dev: TrimDev::BzPoffset2, en_addr: 0x69C, parity_addr: 0x6B9, value_addr: 0x6A0, value_len: 25 }),
        TrimDev::TmpMp0 => Some(TrimCfg { dev: TrimDev::TmpMp0, en_addr: 0x6C9, parity_addr: 0x6C8, value_addr: 0x6C0, value_len: 8 }),
        TrimDev::TmpMp1 => Some(TrimCfg { dev: TrimDev::TmpMp1, en_addr: 0x6D3, parity_addr: 0x6D2, value_addr: 0x6CA, value_len: 8 }),
        TrimDev::TmpMp2 => Some(TrimCfg { dev: TrimDev::TmpMp2, en_addr: 0x6DD, parity_addr: 0x6DC, value_addr: 0x6D4, value_len: 8 }),
        TrimDev::AuadcGain => Some(TrimCfg { dev: TrimDev::AuadcGain, en_addr: 0x6F9, parity_addr: 0x6F8, value_addr: 0x6E0, value_len: 24 }),
        TrimDev::AuadcOffset => Some(TrimCfg { dev: TrimDev::AuadcOffset, en_addr: 0x719, parity_addr: 0x718, value_addr: 0x700, value_len: 24 }),
        TrimDev::PsramTrim => Some(TrimCfg { dev: TrimDev::PsramTrim, en_addr: 0x74C, parity_addr: 0x74B, value_addr: 0x740, value_len: 11 }),
    }
}

/// Where the BL702 keeps the trim of a device: its enable, parity and
/// value bits (addresses in bits from the start of the eFuse), or `None`
/// for a device the chip has no trim for.
pub open spec fn bl702_trim_cfg(dev: TrimDev) -> Option<TrimCfg> {
    match dev {
        TrimDev::Rc32M => Some(TrimCfg { dev: TrimDev::Rc32M, en_addr: 0x73, parity_addr: 0x72, value_addr: 0x6A, value_len: 8 }),
        TrimDev::Rc32K => Some(TrimCfg { dev: TrimDev::Rc32K, en_addr: 0x7F, parity_addr: 0x7E, value_addr: 0x74, value_len: 10 }),
        TrimDev::Gpadc => Some(TrimCfg { dev: TrimDev::Gpadc, en_addr: 0x3CE, parity_addr: 0x3CD, value_addr: 0x3C1, value_len: 12 }),
        TrimDev::Tsen => Some(TrimCfg { dev: TrimDev::Tsen, en_addr: 0x3C0, parity_addr: 0x3EC, value_addr: 0x3E0, value_len: 12 }),
        TrimDev::Usb20 => None,
        TrimDev::DcdcTrim => None,
        TrimDev::DcdcVout => None,
        TrimDev::DcdcDis => None,
        TrimDev::Ldo11Trim => None,
        TrimDev::Ldo15 => None,
        TrimDev::Ldo18Sel => None,
        TrimDev::Ldo18Trim => None,
        TrimDev::Ldo18Bypass => None,
        TrimDev::Ldo33Trim => None,
        TrimDev::Xtal0 => Some(TrimCfg { dev: TrimDev::Xtal0, en_addr: 0x69, parity_addr: 0x68, value_addr: 0x62, value_len: 6 }),
        TrimDev::Xtal1 => None,
        TrimDev::Xtal2 => None,
        TrimDev::Iptat => None,
        TrimDev::Icx => None,
        TrimDev::HpPoffset0 => None,
        TrimDev::HpPoffset1 => None,
        TrimDev::HpPoffset2 => None,
        TrimDev::LpPoffset0 => None,
        TrimDev::LpPoffset1 => None,
        TrimDev::LpPoffset2 => None,
        TrimDev::BzPoffset0 => None,
        TrimDev::BzPoffset1 => None,
        TrimDev::BzPoffset2 => None,
        TrimDev::TmpMp0 => None,
        TrimDev::TmpMp1 => None,
        TrimDev::TmpMp2 => None,
        TrimDev::AuadcGain => None,
        TrimDev::AuadcOffset => None,
        TrimDev::PsramTrim => None,
    }
}

/// Looks up the BL702 trim table.
fn bl702_trim_cfg_of(dev: TrimDev) -> (r: Option<TrimCfg>)
    ensures
        r == bl702_trim_cfg(dev),
{
    match dev {
        TrimDev::Rc32M => Some(TrimCfg { dev: TrimDev::Rc32M, en_addr: 0x73, parity_addr: 0x72, value_addr: 0x6A, value_len: 8 }),
        TrimDev::Rc32K => Some(TrimCfg { dev: TrimDev::Rc32K, en_addr: 0x7F, parity_addr: 0x7E, value_addr: 0x74, value_len: 10 }),
        TrimDev::Gpadc => Some(TrimCfg { dev: TrimDev::Gpadc, en_addr: 0x3CE, parity_addr: 0x3CD, value_addr: 0x3C1, value_len: 12 }),
        TrimDev::Tsen => Some(TrimCfg { dev: TrimDev::Tsen, en_addr: 0x3C0, parity_addr: 0x3EC, value_addr: 0x3E0, value_len: 12 }),
        TrimDev::Usb20 => None,
        TrimDev::DcdcTrim => None,
        TrimDev::DcdcVout => None,
        TrimDev::DcdcDis => None,
        TrimDev::Ldo11Trim => None,
        TrimDev::Ldo15 => None,
        TrimDev::Ldo18Sel => None,
        TrimDev::Ldo18Trim => None,
        TrimDev::Ldo18Bypass => None,
        TrimDev::Ldo33Trim => None,
        TrimDev::Xtal0 => Some(TrimCfg { dev: TrimDev::Xtal0, en_addr: 0x69, parity_addr: 0x68, value_addr: 0x62, value_len: 6 }),
        TrimDev::Xtal1 => None,
        TrimDev::Xtal2 => None,
        TrimDev::Iptat => None,
        TrimDev::Icx => None,
        TrimDev::HpPoffset0 => None,
        TrimDev::HpPoffset1 => None,
        TrimDev::HpPoffset2 => None,
        TrimDev::LpPoffset0 => None,
        TrimDev::LpPoffset1 => None,
        TrimDev::LpPoffset2 => None,
        TrimDev::BzPoffset0 => None,
        TrimDev::BzPoffset1 => None,
        TrimDev::BzPoffset2 => None,
        TrimDev::TmpMp0 => None,
        TrimDev::TmpMp1 => None,
        TrimDev::TmpMp2 => None,
        TrimDev::AuadcGain => None,
        TrimDev::AuadcOffset => None,
        TrimDev::PsramTrim => None,
    }
}

/// The trim configuration of `dev` on `chip`; with no chip selected, no
/// device has one.
pub open spec fn trim_cfg(chip: Option<TrimChip>, dev: TrimDev) -> Option<TrimCfg> {
    match chip {
        Some(TrimChip::Bl808) => bl808_trim_cfg(dev),
        Some(TrimChip::Bl616) => bl616_trim_cfg(dev),
        Some(TrimChip::Bl702) => bl702_trim_cfg(dev),
        None => None,
    }
}

/// Gets the total number of trim configurations.
pub fn get_trim_cfg_count() -> (r: usize)
    ensures
        r == TRIM_DEV_COUNT,
{
    TRIM_DEV_COUNT
}

/// Gets the trim configuration of a device on the selected chip family
/// (`None`: no family selected, and then no device has one).
pub fn get_trim_cfg_by_dev(chip: Option<TrimChip>, dev: TrimDev) -> (r: Option<TrimCfg>)
    ensures
        r == trim_cfg(chip, dev),
        r matches Some(cfg) ==> cfg.dev == dev && cfg.value_len >= 1,
{
    match chip {
        Some(TrimChip::Bl808) => bl808_trim_cfg_of(dev),
        Some(TrimChip::Bl616) => bl616_trim_cfg_of(dev),
        Some(TrimChip::Bl702) => bl702_trim_cfg_of(dev),
        None => None,
    }
}

} // verus!
