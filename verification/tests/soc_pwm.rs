use bouffalo::soc::pwm::{AdcTriggerSource, ChannelConfig, ClockSource, DeadTime, ElectricLevel, GroupConfig, Interrupt, InterruptClear, InterruptConfig, InterruptEnable, InterruptMask, InterruptState, PeriodConfig, Polarity, StopMode, Threshold};

fn interrupt_from_u32(value: u32) -> Interrupt {
    match value {
        0 => Interrupt::Channel0LowThreashold,
        1 => Interrupt::Channel0HighThreashold,
        2 => Interrupt::Channel1LowThreashold,
        3 => Interrupt::Channel1HighThreashold,
        4 => Interrupt::Channel2LowThreashold,
        5 => Interrupt::Channel2HighThreashold,
        6 => Interrupt::Channel3LowThreashold,
        7 => Interrupt::Channel3HighThreashold,
        8 => Interrupt::PeriodEnd,
        9 => Interrupt::ExternalBreak,
        10 => Interrupt::RepeatCount,
        _ => panic!("Unknown value: {}", value),
    }
}

#[test]
fn struct_interrupt_config_functions() {
    let mut val = InterruptConfig(0x0);

    val = val.clear_group_0_interrupt();
    assert_eq!(val.0, 0x00000001);

    val = InterruptConfig(0x0);
    val = val.clear_group_1_interrupt();
    assert_eq!(val.0, 0x00000002);

    val = InterruptConfig(0x00000100);
    assert!(val.group_0_has_interrupt());
    val = InterruptConfig(0x00000000);
    assert!(!val.group_0_has_interrupt());
    val = InterruptConfig(0x00000200);
    assert!(val.group_1_has_interrupt());
    val = InterruptConfig(0x00000000);
    assert!(!val.group_1_has_interrupt());
}

#[test]
fn struct_group_config_functions() {
    let mut val;

    for iter in [0x0000, 0x1037, 0xabcd, 0xffff] {
        val = GroupConfig(iter);
        assert_eq!(val.clock_divide(), iter as u16);
    }

    val = GroupConfig(0x0);
    val = val.enable_stop_on_repeat();
    assert_eq!(val.0, 0x00080000);
    assert!(val.is_stop_on_repeat());
    val = val.disable_stop_on_repeat();
    assert_eq!(val.0, 0x00000000);
    assert!(!val.is_stop_on_repeat());

    val = GroupConfig(0x0);
    val = val.set_adc_trigger_source(AdcTriggerSource::Channel0LowThreashold);
    assert_eq!(
        val.adc_trigger_source(),
        AdcTriggerSource::Channel0LowThreashold
    );
    assert_eq!(AdcTriggerSource::Channel0LowThreashold as u32, 0x00000000);
    val = val.set_adc_trigger_source(AdcTriggerSource::Channel0HighThreashold);
    assert_eq!(
        val.adc_trigger_source(),
        AdcTriggerSource::Channel0HighThreashold
    );
    assert_eq!(AdcTriggerSource::Channel0HighThreashold as u32, 0x00000001);
    val = val.set_adc_trigger_source(AdcTriggerSource::Channel1LowThreashold);
    assert_eq!(
        val.adc_trigger_source(),
        AdcTriggerSource::Channel1LowThreashold
    );
    assert_eq!(AdcTriggerSource::Channel1LowThreashold as u32, 0x00000002);
    val = val.set_adc_trigger_source(AdcTriggerSource::Channel1HighThreashold);
    assert_eq!(
        val.adc_trigger_source(),
        AdcTriggerSource::Channel1HighThreashold
    );
    assert_eq!(AdcTriggerSource::Channel1HighThreashold as u32, 0x00000003);
    val = val.set_adc_trigger_source(AdcTriggerSource::Channel2LowThreashold);
    assert_eq!(
        val.adc_trigger_source(),
        AdcTriggerSource::Channel2LowThreashold
    );
    assert_eq!(AdcTriggerSource::Channel2LowThreashold as u32, 0x00000004);
    val = val.set_adc_trigger_source(AdcTriggerSource::Channel2HighThreashold);
    assert_eq!(
        val.adc_trigger_source(),
        AdcTriggerSource::Channel2HighThreashold
    );
    assert_eq!(AdcTriggerSource::Channel2HighThreashold as u32, 0x00000005);
    val = val.set_adc_trigger_source(AdcTriggerSource::Channel3LowThreashold);
    assert_eq!(
        val.adc_trigger_source(),
        AdcTriggerSource::Channel3LowThreashold
    );
    assert_eq!(AdcTriggerSource::Channel3LowThreashold as u32, 0x00000006);
    val = val.set_adc_trigger_source(AdcTriggerSource::Channel3HighThreashold);
    assert_eq!(
        val.adc_trigger_source(),
        AdcTriggerSource::Channel3HighThreashold
    );
    assert_eq!(AdcTriggerSource::Channel3HighThreashold as u32, 0x00000007);
    val = val.set_adc_trigger_source(AdcTriggerSource::PeriodEnd);
    assert_eq!(val.adc_trigger_source(), AdcTriggerSource::PeriodEnd);
    assert_eq!(AdcTriggerSource::PeriodEnd as u32, 0x00000008);

    val = GroupConfig(0x0);
    val = val.enable_software_break();
    assert!(val.is_software_break_enabled());
    assert_eq!(val.0, 0x01000000);
    val = val.disable_software_break();
    assert!(!val.is_software_break_enabled());
    assert_eq!(val.0, 0x00000000);

    val = val.enable_external_break();
    assert!(val.is_external_break_enabled());
    assert_eq!(val.0, 0x02000000);
    val = val.disable_external_break();
    assert!(!val.is_external_break_enabled());
    assert_eq!(val.0, 0x00000000);

    val = val.set_external_break_polarity(Polarity::ActiveHigh);
    assert_eq!(val.external_break_polarity(), Polarity::ActiveHigh);
    assert_eq!(val.0, 0x04000000);
    val = val.set_external_break_polarity(Polarity::ActiveLow);
    assert_eq!(val.external_break_polarity(), Polarity::ActiveLow);
    assert_eq!(val.0, 0x00000000);

    val = val.enable_stop();
    assert!(val.is_stop_enabled());
    assert_eq!(val.0, 0x08000000);
    val = val.disable_stop();
    assert!(!val.is_stop_enabled());
    assert_eq!(val.0, 0x00000000);

    val = val.set_stop_mode(StopMode::Abrupt);
    assert_eq!(val.stop_mode(), StopMode::Abrupt);
    val = val.set_stop_mode(StopMode::Graceful);
    assert_eq!(val.stop_mode(), StopMode::Graceful);

    val = GroupConfig(0x20000000);
    assert!(val.is_stopped());
    val = GroupConfig(0x00000000);
    assert!(!val.is_stopped());

    val = GroupConfig(0x00000000);
    assert_eq!(val.clock_source(), ClockSource::Xclk);
    val = GroupConfig(0x40000000);
    assert_eq!(val.clock_source(), ClockSource::Bclk);
    val = GroupConfig(0x80000000);
    assert_eq!(val.clock_source(), ClockSource::F32kClk);
    val = GroupConfig(0xc0000000);
    assert_eq!(val.clock_source(), ClockSource::F32kClk);
}

#[test]
fn pwm_struct_channel_config_functions() {
    for idx in 0..=3 {
        let mut val = ChannelConfig(0x0);
        val = val.enable_positive_output(idx);
        assert_eq!(val.0, 0x00000001 << (idx * 4));
        assert!(val.is_positive_output_enabled(idx));
        val = val.disable_positive_output(idx);
        assert_eq!(val.0, 0x00000000 << (idx * 4));
        assert!(!val.is_positive_output_enabled(idx));

        val = val.set_positive_idle_state(idx, ElectricLevel::High);
        assert_eq!(val.0, 0x00000002 << (idx * 4));
        assert_eq!(ElectricLevel::High, val.positive_idle_state(idx));
        val = val.set_positive_idle_state(idx, ElectricLevel::Low);
        assert_eq!(val.0, 0x00000000 << (idx * 4));
        assert_eq!(ElectricLevel::Low, val.positive_idle_state(idx));

        val = val.enable_negative_output(idx);
        assert_eq!(val.0, 0x00000004 << (idx * 4));
        assert!(val.is_negative_output_enabled(idx));
        val = val.disable_negative_output(idx);
        assert_eq!(val.0, 0x00000000 << (idx * 4));
        assert!(!val.is_negative_output_enabled(idx));

        val = val.set_negative_idle_state(idx, ElectricLevel::High);
        assert_eq!(val.0, 0x00000008 << (idx * 4));
        assert_eq!(ElectricLevel::High, val.negative_idle_state(idx));
        val = val.set_negative_idle_state(idx, ElectricLevel::Low);
        assert_eq!(val.0, 0x00000000 << (idx * 4));
        assert_eq!(ElectricLevel::Low, val.negative_idle_state(idx));
    }

    for idx in 0..=3 {
        let mut val = ChannelConfig(0x0);

        val = val.set_positive_polarity(idx, Polarity::ActiveHigh);
        assert_eq!(val.0, 0x00000001 << (16 + idx * 2));
        assert_eq!(val.positive_polarity(idx), Polarity::ActiveHigh);
        val = val.set_positive_polarity(idx, Polarity::ActiveLow);
        assert_eq!(val.0, 0x00000000 << (16 + idx * 2));
        assert_eq!(val.positive_polarity(idx), Polarity::ActiveLow);

        val = val.set_negative_polarity(idx, Polarity::ActiveHigh);
        assert_eq!(val.0, 0x00000001 << (17 + idx * 2));
        assert_eq!(val.negative_polarity(idx), Polarity::ActiveHigh);
        val = val.set_negative_polarity(idx, Polarity::ActiveLow);
        assert_eq!(val.0, 0x00000000 << (17 + idx * 2));
        assert_eq!(val.negative_polarity(idx), Polarity::ActiveLow);

        val = val.set_positive_break_state(idx, ElectricLevel::High);
        assert_eq!(val.0, 0x00000001 << (24 + idx * 2));
        assert_eq!(val.positive_break_state(idx), ElectricLevel::High);
        val = val.set_positive_break_state(idx, ElectricLevel::Low);
        assert_eq!(val.0, 0x00000000 << (24 + idx * 2));
        assert_eq!(val.positive_break_state(idx), ElectricLevel::Low);

        val = val.set_negative_break_state(idx, ElectricLevel::High);
        assert_eq!(val.0, 0x00000001 << (25 + idx * 2));
        assert_eq!(val.negative_break_state(idx), ElectricLevel::High);
        val = val.set_negative_break_state(idx, ElectricLevel::Low);
        assert_eq!(val.0, 0x00000000 << (25 + idx * 2));
        assert_eq!(val.negative_break_state(idx), ElectricLevel::Low);
    }
}

#[test]
fn struct_period_config_functions() {
    let mut val = PeriodConfig(0x0);
    for iter in [0x0000, 0x1037, 0xabcd, 0xffff] {
        val = val.set_period(iter);
        assert_eq!(val.0, iter as u32);
    }

    val = PeriodConfig(0x0);
    for iter in [0x0000, 0x1037, 0xabcd, 0xffff] {
        val = val.set_interrupt_period(iter);
        assert_eq!(val.0, (iter as u32) << 16);
    }
}

#[test]
fn struct_deadtime_functions() {
    let mut val: DeadTime;
    for idx in 0..=3 {
        for iter in 0..=1 {
            val = DeadTime(0x0);
            val = val.set_channel(idx, iter);
            assert_eq!(val.channel(idx), iter);
            assert_eq!(val.0, (iter as u32) << (idx * 8));
        }
    }
}

#[test]
fn struct_threshold_functions() {
    let mut val: Threshold;
    for iter in [0x0000, 0x1037, 0xabcd, 0xffff] {
        val = Threshold(0x0);
        val = val.set_low(iter);
        assert_eq!(val.low(), iter);
        assert_eq!(val.0, iter as u32);

        val = Threshold(0x0);
        val = val.set_high(iter);
        assert_eq!(val.high(), iter);
        assert_eq!(val.0, (iter as u32) << 16);
    }
}

#[test]
fn struct_interrupt_state_functions() {
    let mut val: InterruptState;
    for idx in 0..=10 {
        val = InterruptState(0x00000001 << idx);
        assert!(val.has_interrupt(interrupt_from_u32(idx)));
    }
}

#[test]
fn struct_interrupt_mask_functions() {
    let mut val: InterruptMask = InterruptMask(0x0);
    for idx in 0..=10 {
        val = val.mask_interrupt(interrupt_from_u32(idx));
        assert!(val.is_interrupt_masked(interrupt_from_u32(idx)));
        assert_eq!(val.0, 0x00000001 << idx);
        val = val.unmask_interrupt(interrupt_from_u32(idx));
        assert!(!val.is_interrupt_masked(interrupt_from_u32(idx)));
        assert_eq!(val.0, 0x00000000 << idx);
    }
}

#[test]
fn struct_interrupt_clear_functions() {
    let mut val: InterruptClear;
    for idx in 0..=10 {
        val = InterruptClear(0x0);
        val = val.clear_interrupt(interrupt_from_u32(idx));
        assert_eq!(val.0, 0x00000001 << idx);
    }
}

#[test]
fn struct_interrupt_enable_functions() {
    let mut val: InterruptEnable;
    for idx in 0..=10 {
        val = InterruptEnable(0x0);
        val = val.enable_interrupt(interrupt_from_u32(idx));
        assert!(val.is_interrupt_enabled(interrupt_from_u32(idx)));
        assert_eq!(val.0, 0x00000001 << idx);
        val = val.disable_interrupt(interrupt_from_u32(idx));
        assert!(!val.is_interrupt_enabled(interrupt_from_u32(idx)));
        assert_eq!(val.0, 0x00000000 << idx);
    }
}
