use bouffalo::hal::dma::register::{BurstSize, ChannelConfig, DmaMode, EnabledChannels, EndianMode, ErrorClear, ErrorState, GlobalConfig, GlobalState, LliControl, RawError, RawTransferComplete, TransferCompleteClear, TransferCompleteState, TransferWidth};
use bouffalo::hal::dma::config::{Periph4Dma01, Periph4Dma2};

#[test]
fn struct_interrupt_registers_function() {
    let val = GlobalState(0x10);
    assert!(val.if_int_occurs(4));

    let val = TransferCompleteState(0x10);
    assert!(val.if_cplt_int_occurs(4));

    let val = TransferCompleteClear(0x0).clear_cplt_int(4);
    assert_eq!(val.0, 0x10);

    let val = ErrorState(0x10);
    assert!(val.if_err_int_occurs(4));

    let val = ErrorClear(0x0).clear_err_int(4);
    assert_eq!(val.0, 0x10);

    let val = RawTransferComplete(0x10);
    assert!(val.if_raw_cplt_int_occurs(4));

    let val = RawError(0x10);
    assert!(val.if_raw_error_occurs(4));
}

#[test]
fn struct_enable_channels_function() {
    let val = EnabledChannels(0x10);
    assert!(val.is_ch_enabled(4));
}

#[test]
fn struct_global_config_functions() {
    let mut val = GlobalConfig(0x0);
    val = val.set_ahb_master_endian_mode(EndianMode::BigEndian);
    assert_eq!(val.ahb_master_endian_mode(), EndianMode::BigEndian);
    assert_eq!(val.0, 0x00000002);
    val = val.set_ahb_master_endian_mode(EndianMode::LittleEndian);
    assert_eq!(val.ahb_master_endian_mode(), EndianMode::LittleEndian);
    assert_eq!(val.0, 0x00000000);

    val = val.enable_dma();
    assert!(val.is_dma_enabled());
    assert_eq!(val.0, 0x00000001);
    val = val.disable_dma();
    assert!(!val.is_dma_enabled());
    assert_eq!(val.0, 0x00000000);
}

#[test]
fn struct_channel_registers_functions() {
    let mut val = LliControl(0x0);
    val = val.enable_cplt_int();
    assert!(val.is_cplt_int_enabled());
    assert_eq!(val.0, 0x80000000);
    val = val.disable_cplt_int();
    assert!(!val.is_cplt_int_enabled());
    assert_eq!(val.0, 0x00000000);

    val = val.enable_dst_addr_inc();
    assert!(val.is_dst_addr_inc_enabled());
    assert_eq!(val.0, 0x08000000);
    val = val.disable_dst_addr_inc();
    assert!(!val.is_dst_addr_inc_enabled());
    assert_eq!(val.0, 0x00000000);

    val = val.enable_src_addr_inc();
    assert!(val.is_src_addr_inc_enabled());
    assert_eq!(val.0, 0x04000000);
    val = val.disable_src_addr_inc();
    assert!(!val.is_src_addr_inc_enabled());
    assert_eq!(val.0, 0x00000000);

    val = val.set_fix_cnt(0x7);
    assert_eq!(val.fix_cnt(), 0x7);
    assert_eq!(val.0, 0x03800000);

    val = LliControl(0x0);
    val = val.set_dst_transfer_width(TransferWidth::DoubleWord);
    assert_eq!(val.dst_transfer_width(), TransferWidth::DoubleWord);
    assert_eq!(val.0, 0x00600000);
    val = val.set_dst_transfer_width(TransferWidth::Word);
    assert_eq!(val.dst_transfer_width(), TransferWidth::Word);
    assert_eq!(val.0, 0x00400000);
    val = val.set_dst_transfer_width(TransferWidth::HalfWord);
    assert_eq!(val.dst_transfer_width(), TransferWidth::HalfWord);
    assert_eq!(val.0, 0x00200000);
    val = val.set_dst_transfer_width(TransferWidth::Byte);
    assert_eq!(val.dst_transfer_width(), TransferWidth::Byte);
    assert_eq!(val.0, 0x00000000);

    val = val.set_src_transfer_width(TransferWidth::DoubleWord);
    assert_eq!(val.src_transfer_width(), TransferWidth::DoubleWord);
    assert_eq!(val.0, 0x000C0000);
    val = val.set_src_transfer_width(TransferWidth::Word);
    assert_eq!(val.src_transfer_width(), TransferWidth::Word);
    assert_eq!(val.0, 0x00080000);
    val = val.set_src_transfer_width(TransferWidth::HalfWord);
    assert_eq!(val.src_transfer_width(), TransferWidth::HalfWord);
    assert_eq!(val.0, 0x00040000);
    val = val.set_src_transfer_width(TransferWidth::Byte);
    assert_eq!(val.src_transfer_width(), TransferWidth::Byte);
    assert_eq!(val.0, 0x00000000);

    val = val.enable_dst_add_mode();
    assert!(val.is_dst_add_mode_enabled());
    assert_eq!(val.0, 0x00020000);
    val = val.disable_dst_add_mode();
    assert!(!val.is_dst_add_mode_enabled());
    assert_eq!(val.0, 0x00000000);

    val = val.set_dst_bst_size(BurstSize::INCR16);
    assert_eq!(val.dst_bst_size(), BurstSize::INCR16);
    assert_eq!(val.0, 0x00018000);
    val = val.set_dst_bst_size(BurstSize::INCR8);
    assert_eq!(val.dst_bst_size(), BurstSize::INCR8);
    assert_eq!(val.0, 0x00010000);
    val = val.set_dst_bst_size(BurstSize::INCR4);
    assert_eq!(val.dst_bst_size(), BurstSize::INCR4);
    assert_eq!(val.0, 0x00008000);
    val = val.set_dst_bst_size(BurstSize::INCR1);
    assert_eq!(val.dst_bst_size(), BurstSize::INCR1);
    assert_eq!(val.0, 0x00000000);

    val = val.enable_dst_min_mode();
    assert!(val.is_dst_min_mode_enabled());
    assert_eq!(val.0, 0x00004000);
    val = val.disable_dst_min_mode();
    assert!(!val.is_dst_min_mode_enabled());
    assert_eq!(val.0, 0x00000000);

    val = val.set_src_bst_size(BurstSize::INCR16);
    assert_eq!(val.src_bst_size(), BurstSize::INCR16);
    assert_eq!(val.0, 0x00003000);
    val = val.set_src_bst_size(BurstSize::INCR8);
    assert_eq!(val.src_bst_size(), BurstSize::INCR8);
    assert_eq!(val.0, 0x00002000);
    val = val.set_src_bst_size(BurstSize::INCR4);
    assert_eq!(val.src_bst_size(), BurstSize::INCR4);
    assert_eq!(val.0, 0x00001000);
    val = val.set_src_bst_size(BurstSize::INCR1);
    assert_eq!(val.src_bst_size(), BurstSize::INCR1);
    assert_eq!(val.0, 0x00000000);

    val = val.set_transfer_size(0x7FF);
    assert_eq!(val.transfer_size(), 0x7FF);
    assert_eq!(val.0, 0x000007FF);
}

#[test]
fn register_struct_channel_config_functions() {
    let mut val = ChannelConfig(0x0);
    val = val.set_lli_cnt(0x3FF);
    assert_eq!(val.lli_cnt(), 0x3FF);
    assert_eq!(val.0, 0x3FF00000);

    val = ChannelConfig(0x0);
    val = val.stop_dma();
    assert!(val.is_dma_stopped());
    assert_eq!(val.0, 0x00040000);
    val = val.resume_dma();
    assert!(!val.is_dma_stopped());
    assert_eq!(val.0, 0x00000000);

    val = ChannelConfig(0x00020000);
    assert!(!val.is_fifo_empty());
    val = ChannelConfig(0x0);
    assert!(val.is_fifo_empty());

    val = val.lock_dma();
    assert!(val.is_dma_locked());
    assert_eq!(val.0, 0x00010000);
    val = val.unlock_dma();
    assert!(!val.is_dma_locked());
    assert_eq!(val.0, 0x00000000);

    val = val.enable_cplt_int();
    assert!(val.is_cplt_int_enabled());
    assert_eq!(val.0, 0x00008000);
    val = val.disable_cplt_int();
    assert!(!val.is_cplt_int_enabled());
    assert_eq!(val.0, 0x00000000);

    val = val.enable_err_int();
    assert!(val.is_err_int_enabled());
    assert_eq!(val.0, 0x00004000);
    val = val.disable_err_int();
    assert!(!val.is_err_int_enabled());
    assert_eq!(val.0, 0x00000000);

    // The number 'i' is not related to the actual register, but only to make the code more concise.
    for i in 0..8 as u8 {
        let tmp_mode = match i {
            0 => DmaMode::Mem2Mem,
            1 => DmaMode::Mem2Periph,
            2 => DmaMode::Periph2Mem,
            3 => DmaMode::Periph2Periph,
            4 => DmaMode::Periph2PeriphCtrlByDst,
            5 => DmaMode::Mem2PeriphCtrlByPeriph,
            6 => DmaMode::Periph2MemCtrlByPeriph,
            _ => DmaMode::Periph2PeriphCtrlBySrc,
        };
        let tmp_val = match i {
            0 => 0x00000000,
            1 => 0x00000800,
            2 => 0x00001000,
            3 => 0x00001800,
            4 => 0x00002000,
            5 => 0x00002800,
            6 => 0x00003000,
            7 => 0x00003800,
            _ => unreachable!(),
        };
        val = val.set_dma_mode(tmp_mode);
        assert_eq!(val.dma_mode(), tmp_mode);
        assert_eq!(val.0, tmp_val);
    }

    val = ChannelConfig(0x0);
    // The number 'i' is not related to the actual register, but only to make the code more concise.
    for i in 0..21 as u8 {
        let tmp_periph = match i {
            0 => Periph4Dma01::Uart0Rx,
            1 => Periph4Dma01::Uart0Tx,
            2 => Periph4Dma01::Uart1Rx,
            3 => Periph4Dma01::Uart1Tx,
            4 => Periph4Dma01::Uart2Rx,
            5 => Periph4Dma01::Uart2Tx,
            6 => Periph4Dma01::I2c0Rx,
            7 => Periph4Dma01::I2c0Tx,
            8 => Periph4Dma01::IrTx,
            9 => Periph4Dma01::GpioTx,
            10 => Periph4Dma01::Spi0Rx,
            11 => Periph4Dma01::Spi0Tx,
            12 => Periph4Dma01::AudioRx,
            13 => Periph4Dma01::AudioTx,
            14 => Periph4Dma01::I2c1Rx,
            15 => Periph4Dma01::I2c1Tx,
            16 => Periph4Dma01::I2sRx,
            17 => Periph4Dma01::I2sTx,
            18 => Periph4Dma01::PdmRx,
            19 => Periph4Dma01::GpAdc,
            _ => Periph4Dma01::GpDac,
        };
        let tmp_val = match i {
            0 => 0x00000000,
            1 => 0x00000040,
            2 => 0x00000080,
            3 => 0x000000C0,
            4 => 0x00000100,
            5 => 0x00000140,
            6 => 0x00000180,
            7 => 0x000001C0,
            8 => 0x00000200,
            9 => 0x00000240,
            10 => 0x00000280,
            11 => 0x000002C0,
            12 => 0x00000300,
            13 => 0x00000340,
            14 => 0x00000380,
            15 => 0x000003C0,
            16 => 0x00000400,
            17 => 0x00000440,
            18 => 0x00000480,
            19 => 0x00000580,
            _ => 0x000005C0,
        };
        val = val.set_dst_periph4dma01(tmp_periph);
        assert_eq!(val.dst_periph4dma01(), tmp_periph);
        assert_eq!(val.0, tmp_val);
    }

    val = ChannelConfig(0x0);
    // The number 'i' is not related to the actual register, but only to make the code more concise.
    for i in 0..11 as u8 {
        let tmp_periph = match i {
            0 => Periph4Dma2::Uart3Rx,
            1 => Periph4Dma2::Uart3Tx,
            2 => Periph4Dma2::Spi1Rx,
            3 => Periph4Dma2::Spi1Tx,
            4 => Periph4Dma2::I2c2Rx,
            5 => Periph4Dma2::I2c2Tx,
            6 => Periph4Dma2::I2c3Rx,
            7 => Periph4Dma2::I2c3Tx,
            8 => Periph4Dma2::DsiRx,
            9 => Periph4Dma2::DsiTx,
            _ => Periph4Dma2::DbiTx,
        };
        let tmp_val = match i {
            0 => 0x00000000,
            1 => 0x00000040,
            2 => 0x00000080,
            3 => 0x000000C0,
            4 => 0x00000180,
            5 => 0x000001C0,
            6 => 0x00000200,
            7 => 0x00000240,
            8 => 0x00000280,
            9 => 0x000002C0,
            _ => 0x00000580,
        };
        val = val.set_dst_periph4dma2(tmp_periph);
        assert_eq!(val.dst_periph4dma2(), tmp_periph);
        assert_eq!(val.0, tmp_val);
    }

    val = ChannelConfig(0x0);
    // The number 'i' is not related to the actual register, but only to make the code more concise.
    for i in 0..21 as u8 {
        let tmp_periph = match i {
            0 => Periph4Dma01::Uart0Rx,
            1 => Periph4Dma01::Uart0Tx,
            2 => Periph4Dma01::Uart1Rx,
            3 => Periph4Dma01::Uart1Tx,
            4 => Periph4Dma01::Uart2Rx,
            5 => Periph4Dma01::Uart2Tx,
            6 => Periph4Dma01::I2c0Rx,
            7 => Periph4Dma01::I2c0Tx,
            8 => Periph4Dma01::IrTx,
            9 => Periph4Dma01::GpioTx,
            10 => Periph4Dma01::Spi0Rx,
            11 => Periph4Dma01::Spi0Tx,
            12 => Periph4Dma01::AudioRx,
            13 => Periph4Dma01::AudioTx,
            14 => Periph4Dma01::I2c1Rx,
            15 => Periph4Dma01::I2c1Tx,
            16 => Periph4Dma01::I2sRx,
            17 => Periph4Dma01::I2sTx,
            18 => Periph4Dma01::PdmRx,
            19 => Periph4Dma01::GpAdc,
            _ => Periph4Dma01::GpDac,
        };
        let tmp_val = match i {
            0 => 0x00000000,
            1 => 0x00000002,
            2 => 0x00000004,
            3 => 0x00000006,
            4 => 0x00000008,
            5 => 0x0000000A,
            6 => 0x0000000C,
            7 => 0x0000000E,
            8 => 0x00000010,
            9 => 0x00000012,
            10 => 0x00000014,
            11 => 0x00000016,
            12 => 0x00000018,
            13 => 0x0000001A,
            14 => 0x0000001C,
            15 => 0x0000001E,
            16 => 0x00000020,
            17 => 0x00000022,
            18 => 0x00000024,
            19 => 0x0000002C,
            _ => 0x0000002E,
        };
        val = val.set_src_periph4dma01(tmp_periph);
        assert_eq!(val.src_periph4dma01(), tmp_periph);
        assert_eq!(val.0, tmp_val);
    }

    val = ChannelConfig(0x0);
    // The number 'i' is not related to the actual register, but only to make the code more concise.
    for i in 0..11 as u8 {
        let tmp_periph = match i {
            0 => Periph4Dma2::Uart3Rx,
            1 => Periph4Dma2::Uart3Tx,
            2 => Periph4Dma2::Spi1Rx,
            3 => Periph4Dma2::Spi1Tx,
            4 => Periph4Dma2::I2c2Rx,
            5 => Periph4Dma2::I2c2Tx,
            6 => Periph4Dma2::I2c3Rx,
            7 => Periph4Dma2::I2c3Tx,
            8 => Periph4Dma2::DsiRx,
            9 => Periph4Dma2::DsiTx,
            _ => Periph4Dma2::DbiTx,
        };
        let tmp_val = match i {
            0 => 0x00000000,
            1 => 0x00000002,
            2 => 0x00000004,
            3 => 0x00000006,
            4 => 0x0000000C,
            5 => 0x0000000E,
            6 => 0x00000010,
            7 => 0x00000012,
            8 => 0x00000014,
            9 => 0x00000016,
            _ => 0x0000002C,
        };
        val = val.set_src_periph4dma2(tmp_periph);
        assert_eq!(val.src_periph4dma2(), tmp_periph);
        assert_eq!(val.0, tmp_val);
    }

    val = ChannelConfig(0x0);
    val = val.enable_ch();
    assert!(val.is_ch_enabled());
    assert_eq!(val.0, 0x00000001);
    val = val.disable_ch();
    assert!(!val.is_ch_enabled());
    assert_eq!(val.0, 0x00000000);
}
