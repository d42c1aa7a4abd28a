use bouffalo::hal::gpip::register::{GpadcConfig, GpadcDmaRdata, GpadcFifoThreshold, GpadcPirTrain};

#[test]
fn struct_gpadc_config_functions() {
    let mut val = GpadcConfig(0);

    val = val.set_fifo_threshold(GpadcFifoThreshold::SixteenData);
    assert_eq!(val.fifo_threshold(), GpadcFifoThreshold::SixteenData);
    assert_eq!(val.0, 0x00C0_0000);

    val = val.set_fifo_threshold(GpadcFifoThreshold::EightData);
    assert_eq!(val.fifo_threshold(), GpadcFifoThreshold::EightData);
    assert_eq!(val.0, 0x0080_0000);

    val = val.set_fifo_threshold(GpadcFifoThreshold::FourData);
    assert_eq!(val.fifo_threshold(), GpadcFifoThreshold::FourData);
    assert_eq!(val.0, 0x0040_0000);

    val = val.set_fifo_threshold(GpadcFifoThreshold::OneData);
    assert_eq!(val.fifo_threshold(), GpadcFifoThreshold::OneData);
    assert_eq!(val.0, 0x0000_0000);

    val = GpadcConfig(0x003F_0000);
    assert_eq!(val.fifo_data_count(), 0x3F);

    val = GpadcConfig(0).enable_fifo_ready();
    assert!(val.is_fifo_ready_enabled());
    assert_eq!(val.0, 0x0000_0000);

    val = val.disable_fifo_ready();
    assert!(!val.is_fifo_ready_enabled());
    assert_eq!(val.0, 0x0000_8000);

    val = GpadcConfig(0).enable_fifo_underrun();
    assert!(val.is_fifo_underrun_enabled());
    assert_eq!(val.0, 0x0000_0000);

    val = val.disable_fifo_underrun();
    assert!(!val.is_fifo_underrun_enabled());
    assert_eq!(val.0, 0x0000_4000);

    val = GpadcConfig(0).enable_fifo_overrun();
    assert!(val.is_fifo_overrun_enabled());
    assert_eq!(val.0, 0x0000_0000);

    val = val.disable_fifo_overrun();
    assert!(!val.is_fifo_overrun_enabled());
    assert_eq!(val.0, 0x0000_2000);

    val = GpadcConfig(0).enable_adc_ready();
    assert!(val.is_adc_ready_enabled());
    assert_eq!(val.0, 0x0000_0000);

    val = val.disable_adc_ready();
    assert!(!val.is_adc_ready_enabled());
    assert_eq!(val.0, 0x0000_1000);

    val = GpadcConfig(0).clear_fifo_underrun();
    assert_eq!(val.0, 0x0000_0400);

    val = GpadcConfig(0).clear_fifo_overrun();
    assert_eq!(val.0, 0x0000_0200);

    val = GpadcConfig(0).clear_adc_ready();
    assert_eq!(val.0, 0x0000_0100);

    val = GpadcConfig(0).set_fifo_underrun_clr_bit(1);
    assert_eq!(val.0, 0x0000_0400);

    val = GpadcConfig(0).set_fifo_overrun_clr_bit(1);
    assert_eq!(val.0, 0x0000_0200);

    val = GpadcConfig(0).set_fifo_ready_bit(1);
    assert_eq!(val.0, 0x0000_0080);

    val = GpadcConfig(0).set_fifo_clear_bit(1);
    assert_eq!(val.0, 0x0000_0002);

    val = GpadcConfig(0x0000_0040);
    assert!(val.if_fifo_underrun_occurs());

    val = GpadcConfig(0x0000_0020);
    assert!(val.if_fifo_overrun_occurs());

    val = GpadcConfig(0x0000_0080);
    assert!(val.is_fifo_ready());

    val = GpadcConfig(0x0000_0010);
    assert!(val.is_adc_ready());

    val = GpadcConfig(0x0000_0008);
    assert!(val.is_fifo_full());

    val = GpadcConfig(0x0000_0004);
    assert!(val.is_fifo_not_empty());

    val = GpadcConfig(0).clear_fifo();
    assert_eq!(val.0, 0x0000_0002);

    val = GpadcConfig(0).enable_dma();
    assert!(val.is_dma_enabled());
    assert_eq!(val.0, 0x0000_0001);

    val = val.disable_dma();
    assert!(!val.is_dma_enabled());
    assert_eq!(val.0, 0x0000_0000);
}

#[test]
fn struct_gpadc_dma_rdata_functions() {
    let val = GpadcDmaRdata(0x03FF_FFFF);
    assert_eq!(val.dma_rdata(), 0x03FF_FFFF);

    let val = GpadcDmaRdata(0x0000_0000);
    assert_eq!(val.dma_rdata(), 0x0000_0000);
}

#[test]
fn struct_gpadc_pir_train_functions() {
    let mut val = GpadcPirTrain(0x0002_0000);
    assert!(val.if_pir_training_stops());

    val = GpadcPirTrain(0).set_pir_training_mode(1);
    assert_eq!(val.pir_training_mode(), 1);
    assert_eq!(val.0, 0x0001_0000);

    val = GpadcPirTrain(0x0000_1F00);
    assert_eq!(val.pir_counter_value(), 0x1F);

    val = GpadcPirTrain(0).set_pir_extend(0x1F);
    assert_eq!(val.pir_extend(), 0x1F);
    assert_eq!(val.0, 0x0000_001F);
}
