use bouffalo::hal::efuse::register::{EfuseControl, EfuseCycleConfig1, EfuseIf0ManualConfig};

#[test]
fn struct_efuse_control_functions() {
    let mut val = EfuseControl(0x0);

    val = val.set_prot_code_cyc(0xFF);
    assert_eq!(val.prot_code_cyc(), 0xFF);
    assert_eq!(val.0, 0xFF00_0000);

    val = EfuseControl(0x0).set_if0_int_set(0x1);
    assert_eq!(val.if0_int_set(), 0x1);
    assert_eq!(val.0, 0x0040_0000);

    val = EfuseControl(0x0).set_if0_int_clr(0x1);
    assert_eq!(val.if0_int_clr(), 0x1);
    assert_eq!(val.0, 0x0020_0000);

    val = EfuseControl(0x0).set_if0_int(0x1);
    assert_eq!(val.if0_int(), 0x1);
    assert_eq!(val.0, 0x0010_0000);

    val = EfuseControl(0x0).set_cyc_modify_lock(0x1);
    assert_eq!(val.cyc_modify_lock(), 0x1);
    assert_eq!(val.0, 0x0008_0000);

    val = EfuseControl(0x0).enable_auto_read();
    assert!(val.is_auto_read_enabled());
    assert_eq!(val.0, 0x0004_0000);

    val = val.disable_auto_read();
    assert!(!val.is_auto_read_enabled());
    assert_eq!(val.0, 0x0000_0000);

    val = val.enable_pclk_force_on();
    assert!(val.is_pclk_force_on_enabled());
    assert_eq!(val.0, 0x0002_0000);

    val = val.disable_pclk_force_on();
    assert!(!val.is_pclk_force_on_enabled());
    assert_eq!(val.0, 0x0000_0000);

    val = val.set_clk_sahb_data_gate(0x1);
    assert_eq!(val.clk_sahb_data_gate(), 0x1);
    assert_eq!(val.0, 0x0002_0000);

    val = EfuseControl(0x0).set_por_dig(0x1);
    assert_eq!(val.por_dig(), 0x1);
    assert_eq!(val.0, 0x0001_0000);

    val = EfuseControl(0x0).set_prot_code_ctrl(0xFF);
    assert_eq!(val.prot_code_ctrl(), 0xFF);
    assert_eq!(val.0, 0x0000_FF00);

    val = EfuseControl(0x0).set_clk_sahb_data_sel(0x1);
    assert_eq!(val.clk_sahb_data_sel(), 0x1);
    assert_eq!(val.0, 0x0000_0080);

    val = EfuseControl(0x0).set_if0_cyc_modify(0x1);
    assert_eq!(val.if0_cyc_modify(), 0x1);
    assert_eq!(val.0, 0x0000_0040);

    val = EfuseControl(0x0).enable_if0_manually();
    assert!(val.is_if0_manually_enabled());
    assert_eq!(val.0, 0x0000_0020);

    val = EfuseControl(0x0).disable_if0_manually();
    assert!(!val.is_if0_manually_enabled());
    assert_eq!(val.0, 0x0000_0000);

    val = EfuseControl(0x0).set_if0_trig(0x1);
    assert_eq!(val.if0_trig(), 0x1);
    assert_eq!(val.0, 0x0000_0010);

    val = EfuseControl(0x0).set_if0_rw(0x1);
    assert_eq!(val.if0_rw(), 0x1);
    assert_eq!(val.0, 0x0000_0008);

    val = EfuseControl(0x0000_0004);
    assert!(val.is_efuse_busy());

    val = EfuseControl(0x0000_0002);
    assert!(val.is_efuse_autoload_done());

    val = EfuseControl(0x0000_0001);
    assert!(val.is_efuse_autoload_p1_done());
}

#[test]
fn struct_efuse_cycle_config1_functions() {
    let mut val = EfuseCycleConfig1(0x0);

    val = val.set_cyc_ps_cs_h(0x3F);
    assert_eq!(val.cyc_ps_cs_h(), 0x3F);
    assert_eq!(val.0, 0xFC00_0000);

    val = EfuseCycleConfig1(0x0).set_cyc_cs(0x3F);
    assert_eq!(val.cyc_cs(), 0x3F);
    assert_eq!(val.0, 0x03F0_0000);

    val = EfuseCycleConfig1(0x0).set_cyc_wr_addr(0x3F);
    assert_eq!(val.cyc_wr_addr(), 0x3F);
    assert_eq!(val.0, 0x000F_C000);

    val = EfuseCycleConfig1(0x0).set_cyc_pp(0xFF);
    assert_eq!(val.cyc_pp(), 0xFF);
    assert_eq!(val.0, 0x0000_3FC0);

    val = EfuseCycleConfig1(0x0).set_cyc_pi(0x3F);
    assert_eq!(val.cyc_pi(), 0x3F);
    assert_eq!(val.0, 0x0000_003F);
}

#[test]
fn struct_efuse_if0_manual_config_functions() {
    let mut val = EfuseIf0ManualConfig(0x0);

    val = val.set_prot_code_manually(0xFF);
    assert_eq!(val.prot_code_manually(), 0xFF);
    assert_eq!(val.0, 0xFF00_0000);

    val = EfuseIf0ManualConfig(0x0).set_if0_q(0xFF);
    assert_eq!(val.if0_q(), 0xFF);
    assert_eq!(val.0, 0x00FF_0000);

    val = EfuseIf0ManualConfig(0x0).set_csb(0x1);
    assert_eq!(val.csb(), 0x1);
    assert_eq!(val.0, 0x0000_8000);

    val = EfuseIf0ManualConfig(0x0).set_load(0x1);
    assert_eq!(val.load(), 0x1);
    assert_eq!(val.0, 0x0000_4000);

    val = EfuseIf0ManualConfig(0x0).set_pgenb(0x1);
    assert_eq!(val.pgenb(), 0x1);
    assert_eq!(val.0, 0x0000_2000);

    val = EfuseIf0ManualConfig(0x0).set_strobe(0x1);
    assert_eq!(val.strobe(), 0x1);
    assert_eq!(val.0, 0x0000_1000);

    val = EfuseIf0ManualConfig(0x0).set_ps(0x1);
    assert_eq!(val.ps(), 0x1);
    assert_eq!(val.0, 0x0000_0800);

    val = EfuseIf0ManualConfig(0x0).set_pd(0x1);
    assert_eq!(val.pd(), 0x1);
    assert_eq!(val.0, 0x0000_0400);

    val = EfuseIf0ManualConfig(0x0).set_address(0x3FF);
    assert_eq!(val.address(), 0x3FF);
    assert_eq!(val.0, 0x0000_03FF);
}
