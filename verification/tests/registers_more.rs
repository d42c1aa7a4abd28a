use bouffalo::bits::{clear_bit, get_field, or_into_field, set_bit, set_field, test_bit};
use bouffalo::hal::dma::channel::{configure, memory_to_memory};
use bouffalo::hal::dma::config::{DmaChannelConfig, Mem2MemChannelConfig, Periph4Dma01, Periph4Dma2, PeripheralId};
use bouffalo::hal::dma::register::{BurstSize, ChannelConfig, DmaMode, LliControl, TransferWidth};
use bouffalo::hal::efuse::trim_config::{get_trim_cfg_by_dev, get_trim_cfg_count, TrimChip, TrimDev};
use bouffalo::hal::glb::v1::{ClockConfig0, Function, GlbRootClk, GpioConfig, GpioInterruptMode, InterruptMode};
use bouffalo::hal::glb::{Drive, Pull};
use bouffalo::hal::lz4d::register::{Config, DestinationEnd, DestinationStart, InterruptState, SourceStart};
use bouffalo::hal::lz4d::{poll_decompress, Error};
use bouffalo::soc::pwm::{set_clock, ClockSource, GroupConfig};

#[test]
fn field_write_read_laws() {
    let x = 0xdead_beefu32;
    let y = set_field(x, 8, 8, 0x12);
    assert_eq!(get_field(y, 8, 8), 0x12);
    assert_eq!(y, 0xdead_12ef);
    // last write wins, and writing back what a field holds changes nothing
    assert_eq!(set_field(set_field(x, 8, 8, 0x12), 8, 8, 0x34), set_field(x, 8, 8, 0x34));
    assert_eq!(set_field(x, 8, 8, get_field(x, 8, 8)), x);
    // bits that do not fit are dropped by a masked write, spill over otherwise
    assert_eq!(set_field(0, 4, 4, 0x1f), 0xf0);
    assert_eq!(or_into_field(0, 4, 4, 0x1f), 0x1f0);
    assert_eq!(set_bit(0, 31), 0x8000_0000);
    assert_eq!(clear_bit(0xffff_ffff, 0), 0xffff_fffe);
    assert!(test_bit(0x10, 4));
    assert!(!test_bit(0x10, 3));
}

#[test]
fn trim_table() {
    let bl808 = Some(TrimChip::Bl808);
    assert_eq!(get_trim_cfg_count(), 34);
    let rc32m = get_trim_cfg_by_dev(bl808, TrimDev::Rc32M).unwrap();
    assert_eq!(rc32m.dev, TrimDev::Rc32M);
    assert_eq!(rc32m.en_addr, 0x78 * 8 + 1);
    assert_eq!(rc32m.parity_addr, 0x78 * 8);
    assert_eq!(rc32m.value_addr, 0x7C * 8 + 4);
    assert_eq!(rc32m.value_len, 8);
    let gpadc = get_trim_cfg_by_dev(bl808, TrimDev::Gpadc).unwrap();
    assert_eq!(gpadc.value_addr, 0xF0 * 8 + 14);
    assert_eq!(gpadc.value_len, 12);
    assert!(get_trim_cfg_by_dev(bl808, TrimDev::DcdcVout).is_none());
    assert!(get_trim_cfg_by_dev(bl808, TrimDev::PsramTrim).is_none());
}

#[test]
fn trim_table_bl616() {
    let bl616 = Some(TrimChip::Bl616);
    let vout = get_trim_cfg_by_dev(bl616, TrimDev::DcdcVout).unwrap();
    assert_eq!(vout.dev, TrimDev::DcdcVout);
    assert_eq!(vout.en_addr, 0xF4 * 8 + 16);
    assert_eq!(vout.parity_addr, 0xF4 * 8 + 15);
    assert_eq!(vout.value_addr, 0xF4 * 8 + 10);
    assert_eq!(vout.value_len, 5);
    let ldo11 = get_trim_cfg_by_dev(bl616, TrimDev::Ldo11Trim).unwrap();
    assert_eq!(ldo11.en_addr, 0x78 * 8 + 7);
    let psram = get_trim_cfg_by_dev(bl616, TrimDev::PsramTrim).unwrap();
    assert_eq!(psram.value_addr, 0xE8 * 8);
    assert_eq!(psram.value_len, 11);
}

#[test]
fn trim_table_bl702() {
    let bl702 = Some(TrimChip::Bl702);
    let tsen = get_trim_cfg_by_dev(bl702, TrimDev::Tsen).unwrap();
    assert_eq!(tsen.en_addr, 0x78 * 8);
    assert_eq!(tsen.parity_addr, 0x7C * 8 + 12);
    assert_eq!(tsen.value_addr, 0x7C * 8);
    let xtal0 = get_trim_cfg_by_dev(bl702, TrimDev::Xtal0).unwrap();
    assert_eq!(xtal0.value_len, 6);
    assert!(get_trim_cfg_by_dev(bl702, TrimDev::Usb20).is_none());
}

#[test]
fn trim_table_without_chip_is_empty() {
    assert!(get_trim_cfg_by_dev(None, TrimDev::Rc32M).is_none());
    assert!(get_trim_cfg_by_dev(None, TrimDev::PsramTrim).is_none());
}

#[test]
fn pwm_group_clock() {
    let val = set_clock(GroupConfig(0xffff_ffff), 1000, ClockSource::Xclk, 40_000_000);
    assert_eq!(val.clock_divide(), 40000);
    assert_eq!(val.clock_source(), ClockSource::Xclk);
    assert_eq!(val.0, 0x3fff_0000 | 40000);
}

#[test]
fn dma_channel_setup() {
    let cfg = DmaChannelConfig {
        direction: DmaMode::Mem2Periph,
        src_req: None,
        dst_req: Some(Periph4Dma01::Uart0Tx),
        src_addr_inc: true,
        dst_addr_inc: false,
        src_burst_size: BurstSize::INCR4,
        dst_burst_size: BurstSize::INCR1,
        src_transfer_width: TransferWidth::Byte,
        dst_transfer_width: TransferWidth::Word,
    };
    let setup = configure(ChannelConfig(0x1), LliControl(1 << 31), 3, cfg);
    assert!(!setup.config.is_ch_enabled());
    assert_eq!(setup.config.dma_mode(), DmaMode::Mem2Periph);
    assert_eq!(setup.config.dst_periph4dma01(), Periph4Dma01::Uart0Tx);
    assert_eq!(setup.config.src_periph4dma01(), Periph4Dma01::Uart0Rx);
    assert!(setup.config.is_cplt_int_enabled());
    assert!(setup.config.is_err_int_enabled());
    assert!(setup.control.is_src_addr_inc_enabled());
    assert!(!setup.control.is_dst_addr_inc_enabled());
    assert_eq!(setup.control.dst_transfer_width(), TransferWidth::Word);
    assert_eq!(setup.control.src_bst_size(), BurstSize::INCR4);
    assert!(!setup.control.is_cplt_int_enabled());
    assert_eq!(setup.complete_clear.0, 0x08);
    assert_eq!(setup.error_clear.0, 0x08);
    assert_eq!(Periph4Dma2::DbiTx.id(), 22);
    assert_eq!(Periph4Dma01::GpDac.id(), 23);

    let m2m = Mem2MemChannelConfig {
        direction: DmaMode::Mem2Mem,
        src_addr_inc: true,
        dst_addr_inc: true,
        src_burst_size: BurstSize::INCR1,
        dst_burst_size: BurstSize::INCR1,
        src_transfer_width: TransferWidth::Word,
        dst_transfer_width: TransferWidth::Word,
    };
    let setup = memory_to_memory(ChannelConfig(0xffff_ffff), LliControl(0), 0, m2m);
    assert_eq!(setup.config.0 & (0x1f << 1), 0);
    assert_eq!(setup.config.0 & (0x1f << 6), 0);
    assert_eq!(setup.config.lli_cnt(), 0);
    assert_eq!(setup.complete_clear.0, 0x01);
}

#[test]
fn glb_v1_registers() {
    let val = GpioConfig(0).set_pull(1, Pull::Up).set_drive(0, Drive::Drive3).set_function(1, Function::Uart);
    assert_eq!(val.pull(1), Pull::Up);
    assert_eq!(val.pull(0), Pull::NoPull);
    assert_eq!(val.drive(0), Drive::Drive3);
    assert_eq!(val.function(1), Function::Uart);
    assert_eq!(val.0, (1 << 20) | (3 << 2) | (7 << 24));
    let mode = GpioInterruptMode(0).set_interrupt_mode(2, InterruptMode::AsyncLowLevel);
    assert_eq!(mode.interrupt_mode(2), InterruptMode::AsyncLowLevel);
    assert_eq!(mode.0, 6 << 6);
    // pin 10's field runs past the word: only its two low bits are kept
    let mode = GpioInterruptMode(0).set_interrupt_mode(10, InterruptMode::AsyncHighLevel);
    assert_eq!(mode.0, 3 << 30);
    assert_eq!(mode.interrupt_mode(10), InterruptMode::SyncHighLevel);
    let clk = ClockConfig0(0).set_hbn_root_clk_sel(GlbRootClk::Pll).set_bclk_div(0x12);
    assert_eq!(clk.hbn_root_clk_sel(), GlbRootClk::Pll);
    assert_eq!(ClockConfig0(3 << 6).hbn_root_clk_sel(), GlbRootClk::Pll);
    assert_eq!(clk.bclk_div(), 0x12);
}

#[test]
fn lz4d_registers() {
    let cfg = Config(0).enable().set_suspended(true).set_has_checksum(true);
    assert!(cfg.is_enabled());
    assert!(cfg.suspended());
    assert!(cfg.has_checksum());
    assert_eq!(cfg.0, 0x13);
    assert_eq!(cfg.set_suspended(false).0, 0x11);
    let start = SourceStart(0).set_start(0x123_4567).set_base(0x2a);
    assert_eq!(start.start(), 0x123_4567);
    assert_eq!(start.base(), 0x2a);
    // the base is written without masking: high bits spill out of the word
    assert_eq!(SourceStart(0).set_base(0x7f).0, 0xfc00_0000);
}

#[test]
fn lz4d_poll() {
    let start = DestinationStart(0x100);
    let end = DestinationEnd(0x180);
    assert_eq!(poll_decompress(InterruptState(0), start, end), None);
    assert_eq!(poll_decompress(InterruptState(1), start, end), Some(Ok(0x80)));
    assert_eq!(poll_decompress(InterruptState(3), start, end), Some(Ok(0x80)));
    assert_eq!(poll_decompress(InterruptState(2), start, end), Some(Err(Error)));
}

#[test]
fn bitfield_on_usize() {
    let field = bouffalo::bitfield::BitField::<4, 8, usize>::from(0xffff);
    assert_eq!(field.get(), 0xf);
    assert_eq!(field.set(0x3), 0xf3ff);
    assert_eq!(field.checked_set(0x10), None);
    assert_eq!(field.checked_set(0x5), Some(0xf5ff));
    assert_eq!(field.get_mask(), 0xf00);
    assert_eq!(field.clear(), 0xf0ff);
}
