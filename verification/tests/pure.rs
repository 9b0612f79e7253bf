//! The functions that compute without asking for anything.

use e1000_ich8lan::consts::{
    BM_PORT_GEN_CFG, BM_PORT_PAUSE_TIME, CV_SMB_CTRL, HV_COLC_LOWER, HV_COLC_UPPER, HV_DC_LOWER,
    HV_DC_UPPER, HV_ECOL_LOWER, HV_ECOL_UPPER, HV_KMRN_FIFO_CTRLSTA, HV_LATECOL_LOWER,
    HV_LATECOL_UPPER, HV_LED_CONFIG, HV_MCC_LOWER, HV_MCC_UPPER, HV_OEM_BITS, HV_PM_CTRL,
    HV_SCC_LOWER, HV_SCC_UPPER, HV_SMB_ADDR, HV_TNCRS_LOWER, HV_TNCRS_UPPER, I217_INBAND_CTRL,
    I217_PLL_CLOCK_GATE_REG, I218_ULP_CONFIG1, I82579_LPI_CTRL, PHY_769_16, PHY_769_20,
    PHY_776_20, PHY_776_23,
};
use e1000_ich8lan::emi::fn_phy_reg;
use e1000_ich8lan::error::Error;
use e1000_ich8lan::hw::{Func, Hw, MacType, MediaType, PhyType};
use e1000_ich8lan::io::{Action, Adapter};
use e1000_ich8lan::jumbo::{calc_rx_da_crc, copy_rx_addrs_to_phy_ich8lan};
use e1000_ich8lan::ltr::{choose_ltr, ltr2ns};
use e1000_ich8lan::params::{
    init_function_pointers, init_mac_params_ich8lan, set_kmrn_lock_loss_workaround_ich8lan,
};
use e1000_ich8lan::phy_access::init_phy_params_ich8lan;
use e1000_ich8lan::phy_config::power_down_phy_copper_ich8lan;
use e1000_ich8lan::power::{
    check_mng_mode_ich8lan, check_mng_mode_pchlan, gig_downshift_workaround_ich8lan,
    igp3_phy_powerdown_workaround_ich8lan, resume_workarounds_pchlan, suspend_workarounds_ich8lan,
};

fn adapter(mac_type: MacType) -> Adapter {
    Adapter::new(Hw::new(mac_type, 0x15A3), vec![])
}

#[test]
fn phy_register_addresses() {
    assert_eq!(fn_phy_reg(768, 25), HV_OEM_BITS);
    assert_eq!(fn_phy_reg(768, 26), HV_SMB_ADDR);
    assert_eq!(fn_phy_reg(768, 30), HV_LED_CONFIG);
    assert_eq!(fn_phy_reg(769, 16), PHY_769_16);
    assert_eq!(fn_phy_reg(769, 17), BM_PORT_GEN_CFG);
    assert_eq!(fn_phy_reg(769, 20), PHY_769_20);
    assert_eq!(fn_phy_reg(769, 23), CV_SMB_CTRL);
    assert_eq!(fn_phy_reg(769, 27), BM_PORT_PAUSE_TIME);
    assert_eq!(fn_phy_reg(770, 16), HV_KMRN_FIFO_CTRLSTA);
    assert_eq!(fn_phy_reg(770, 17), HV_PM_CTRL);
    assert_eq!(fn_phy_reg(770, 18), I217_INBAND_CTRL);
    assert_eq!(fn_phy_reg(772, 20), I82579_LPI_CTRL);
    assert_eq!(fn_phy_reg(772, 28), I217_PLL_CLOCK_GATE_REG);
    assert_eq!(fn_phy_reg(776, 20), PHY_776_20);
    assert_eq!(fn_phy_reg(776, 23), PHY_776_23);
    assert_eq!(fn_phy_reg(779, 16), I218_ULP_CONFIG1);
    let stats = [
        (16, HV_SCC_UPPER),
        (17, HV_SCC_LOWER),
        (18, HV_ECOL_UPPER),
        (19, HV_ECOL_LOWER),
        (20, HV_MCC_UPPER),
        (21, HV_MCC_LOWER),
        (23, HV_LATECOL_UPPER),
        (24, HV_LATECOL_LOWER),
        (25, HV_COLC_UPPER),
        (26, HV_COLC_LOWER),
        (27, HV_DC_UPPER),
        (28, HV_DC_LOWER),
        (29, HV_TNCRS_UPPER),
        (30, HV_TNCRS_LOWER),
    ];
    for (reg, addr) in stats {
        assert_eq!(fn_phy_reg(778, reg), addr);
    }
}

#[test]
fn phy_register_number_is_five_bits() {
    assert_eq!(fn_phy_reg(1, 0), 32);
    assert_eq!(fn_phy_reg(1, 33), 33);
    assert_eq!(fn_phy_reg(0, 31), 31);
    assert_eq!(fn_phy_reg(3, 0xFFFF_FFFF), 0x7F);
}

#[test]
fn latencies_decode() {
    assert_eq!(ltr2ns(0), 0);
    assert_eq!(ltr2ns(1023), 1023);
    assert_eq!(ltr2ns(0x0401), 32);
    assert_eq!(ltr2ns(0x0801), 1024);
    assert_eq!(ltr2ns(0x0C01), 32_768);
    assert_eq!(ltr2ns(0x1001), 1_048_576);
    assert_eq!(ltr2ns(0x17FF), 1023 << 25);
    assert_eq!(ltr2ns(0x1FFF), 1023 << 35);
    // The requirement bit is no part of the latency.
    assert_eq!(ltr2ns(0x8801), 1024);
}

#[test]
fn latency_of_a_large_buffer() {
    // 24 KB at 1 Gb/s with frames of 1 byte: (24576 - 16000) / 1000 = 8 ns.
    assert_eq!(choose_ltr(24, 1, 1000, 0x1003), (8, 24));
    // 64 KB at 10 Mb/s: (65536 - 16000) / 10 = 4953 ns, 155 units of 32 ns.
    assert_eq!(choose_ltr(64, 1, 10, 0x1003), (0x400 + 155, 64));
}

#[test]
fn latency_is_rounded_up() {
    // (1025024 - 16000) / 1000 = 1009, which fits; one more KB gives 1010.
    assert_eq!(choose_ltr(1001, 1, 1000, 0x1003).0, 1009);
    // (1064960 - 16000) / 1000 = 1048 = 32 * 32.75.
    assert_eq!(choose_ltr(1040, 1, 1000, 0x1003).0, 0x400 + 33);
}

#[test]
fn latency_is_limited_by_the_platform() {
    // 4953 ns tolerated, 1024 ns supported.
    assert_eq!(choose_ltr(64, 1, 10, 0x0401), (0x0401, 64));
    assert_eq!(choose_ltr(64, 1, 10, 0), (0, 0));
}

#[test]
fn no_latency_is_tolerated_by_a_small_buffer() {
    // 26 KB against two frames of 1518 bytes.
    assert_eq!(choose_ltr(26, 1518, 1000, 0x1003), (0, 0));
}

#[test]
fn high_water_mark_falls_with_the_latency() {
    // 0x1003 stands for 3145728 ns, in which 1 Gb/s brings 393 KB.
    let (enc, mark) = choose_ltr(0xFFFF, 1, 1, 0x1003);
    assert_eq!(enc, 0x1003);
    assert_eq!(mark, 0xFFFF);
    // (67107840 - 16000) / 100 = 670918 ns, 656 units of 1024 ns.
    let (enc, mark) = choose_ltr(0xFFFF, 1, 100, 0x1003);
    assert_eq!(enc, 0x800 + 656);
    assert_eq!(mark, 0xFFFF - 8);
}

#[test]
fn families_are_ordered() {
    assert!(MacType::Mac_pch_spt.at_least(MacType::Mac_pch_lpt));
    assert!(MacType::Mac_pch_lpt.at_least(MacType::Mac_pch_lpt));
    assert!(!MacType::Mac_ich8lan.at_least(MacType::Mac_pchlan));
    assert!(MacType::Mac_newer.at_least(MacType::Mac_pch_cnp));
    assert!(!MacType::Mac_older.at_least(MacType::Mac_ich8lan));
    assert!(PhyType::Type_i217.is_after_82579());
    assert!(!PhyType::Type_82579.is_after_82579());
    assert!(PhyType::Type_82577.is_pch());
    assert!(!PhyType::Type_igp_3.is_pch());
}

#[test]
fn function_tables_of_pch_devices() {
    for mac_type in [
        MacType::Mac_pchlan,
        MacType::Mac_pch2lan,
        MacType::Mac_pch_lpt,
        MacType::Mac_pch_spt,
        MacType::Mac_pch_cnp,
    ] {
        let mut a = adapter(mac_type);
        assert_eq!(init_function_pointers(&mut a), Ok(()));
        assert_eq!(a.hw.mac.ops.init_params, Some(Func::InitMacParamsIch8lan));
        assert_eq!(a.hw.nvm.ops.init_params, Some(Func::InitNvmParamsIch8lan));
        assert_eq!(a.hw.phy.ops.init_params, Some(Func::InitPhyParamsPchlan));
    }
}

#[test]
fn other_devices_are_unsupported() {
    for mac_type in [MacType::Mac_ich8lan, MacType::Mac_ich10lan, MacType::Mac_newer] {
        let mut a = adapter(mac_type);
        assert_eq!(init_function_pointers(&mut a), Err(Error::UnsupportedHardware));
        assert_eq!(a.hw.mac.ops.init_params, Some(Func::InitMacParamsIch8lan));
        assert_eq!(a.hw.phy.ops.init_params, None);
    }
    let mut a = adapter(MacType::Mac_ich8lan);
    assert_eq!(init_phy_params_ich8lan(&mut a), Err(Error::HardwareNotSupported));
}

#[test]
fn mac_params_of_sunrise_point() {
    let mut a = adapter(MacType::Mac_pch_spt);
    assert_eq!(init_mac_params_ich8lan(&mut a), Ok(()));
    assert_eq!(a.hw.mac.mta_reg_count, 32);
    assert_eq!(a.hw.mac.rar_entry_count, 12);
    assert_eq!(a.hw.phy.media_type, MediaType::Copper);
    assert_eq!(a.hw.mac.ops.rar_set, Some(Func::RarSetPchLpt));
    assert_eq!(a.hw.mac.ops.setup_physical_interface, Some(Func::SetupCopperLinkPchLpt));
    assert_eq!(a.hw.mac.ops.set_obff_timer, Some(Func::SetObffTimerPchLpt));
    assert_eq!(a.hw.mac.ops.update_mc_addr_list, Some(Func::UpdateMcAddrListPch2lan));
    assert_eq!(a.hw.mac.ops.led_on, Some(Func::LedOnPchlan));
    assert_eq!(a.hw.mac.ops.blink_led, None);
    assert!(a.hw.mac.has_fwsm && a.hw.mac.asf_firmware_present && a.hw.mac.adaptive_ifs);
    assert!(!a.hw.mac.arc_subsystem_valid);
    let once = a.hw;
    assert_eq!(init_mac_params_ich8lan(&mut a), Ok(()));
    assert_eq!(a.hw, once);
}

#[test]
fn mac_params_of_older_families() {
    let mut a = adapter(MacType::Mac_ich8lan);
    assert_eq!(init_mac_params_ich8lan(&mut a), Ok(()));
    assert_eq!(a.hw.mac.rar_entry_count, 6);
    assert_eq!(a.hw.mac.ops.led_on, Some(Func::LedOnIch8lan));
    assert_eq!(a.hw.mac.ops.blink_led, Some(Func::BlinkLedGeneric));
    assert_eq!(a.hw.mac.ops.update_mc_addr_list, Some(Func::UpdateMcAddrListGeneric));

    let mut a = adapter(MacType::Mac_ich9lan);
    assert_eq!(init_mac_params_ich8lan(&mut a), Ok(()));
    assert_eq!(a.hw.mac.rar_entry_count, 7);

    let mut a = adapter(MacType::Mac_pchlan);
    assert_eq!(init_mac_params_ich8lan(&mut a), Ok(()));
    assert_eq!(a.hw.mac.rar_entry_count, 7);
    assert_eq!(a.hw.mac.ops.rar_set, None);
    assert_eq!(a.hw.mac.ops.update_mc_addr_list, Some(Func::UpdateMcAddrListGeneric));
    assert_eq!(a.hw.mac.ops.id_led_init, Some(Func::IdLedInitPchlan));

    let mut a = adapter(MacType::Mac_pch2lan);
    assert_eq!(init_mac_params_ich8lan(&mut a), Ok(()));
    assert_eq!(a.hw.mac.rar_entry_count, 5);
    assert_eq!(a.hw.mac.ops.rar_set, Some(Func::RarSetPch2lan));
    assert_eq!(a.hw.mac.ops.setup_physical_interface, Some(Func::SetupCopperLinkIch8lan));
}

#[test]
fn kumeran_workaround_is_for_ich8() {
    let mut a = adapter(MacType::Mac_ich8lan);
    let before = a.hw;
    set_kmrn_lock_loss_workaround_ich8lan(&mut a, true);
    assert!(a.hw.dev_spec.kmrn_lock_loss_workaround);
    set_kmrn_lock_loss_workaround_ich8lan(&mut a, false);
    assert_eq!(a.hw, before);
    assert_eq!(init_mac_params_ich8lan(&mut a), Ok(()));
    assert!(a.hw.dev_spec.kmrn_lock_loss_workaround);
    let mut a = adapter(MacType::Mac_ich9lan);
    let before = a.hw;
    set_kmrn_lock_loss_workaround_ich8lan(&mut a, true);
    assert_eq!(a.hw, before);
    assert!(a.io.trace.is_empty());
}

#[test]
fn functions_without_effect() {
    let mut a = adapter(MacType::Mac_ich8lan);
    let before = a.hw;
    assert!(!check_mng_mode_ich8lan(&mut a));
    assert!(!check_mng_mode_pchlan(&mut a));
    igp3_phy_powerdown_workaround_ich8lan(&mut a);
    gig_downshift_workaround_ich8lan(&mut a);
    suspend_workarounds_ich8lan(&mut a);
    assert_eq!(resume_workarounds_pchlan(&mut a), 0);
    power_down_phy_copper_ich8lan(&mut a);
    copy_rx_addrs_to_phy_ich8lan(&mut a);
    assert_eq!(calc_rx_da_crc(&[1, 2, 3, 4, 5, 6]), 0);
    assert_eq!(a.hw, before);
    assert!(a.io.trace.is_empty() && !a.is_stalled());
}

#[test]
fn error_texts() {
    let text = |e: Error| e.message().unwrap();
    assert_eq!(text(Error::UnsupportedHardware), "Unsupported hardware");
    assert_eq!(text(Error::HardwareNotSupported), "This hardware is not supported");
    assert_eq!(text(Error::ResetBlocked), "Reset blocked by ME");
    assert_eq!(text(Error::PhyError), "PHY error");
    assert_eq!(text(Error::UnknownPhyType), "Unknown phy type");
    assert_eq!(text(Error::FlashNotMapped), "Flash registers not mapped");
    assert_eq!(text(Error::NoFunction), "No function");
    assert_eq!(text(Error::MaxFrameSizeNotSet), "Max frame size is not set");
    assert_eq!(text(Error::SpeedNotSet), "Speed not set");
    assert_eq!(text(Error::InvalidHighWaterMark(-17)), "Invalid high water mark -17");
    assert_eq!(text(Error::InvalidHighWaterMark(0)), "Invalid high water mark 0");
    assert_eq!(text(Error::InvalidHighWaterMark(40)), "Invalid high water mark 40");
    assert_eq!(
        text(Error::InvalidHighWaterMark(i32::MIN)),
        "Invalid high water mark -2147483648"
    );
    assert_eq!(text(Error::UlpConfigure), "ULP configure");
    assert_eq!(text(Error::AutonegNotSet), "Auto-Neg is not set");
    assert_eq!(text(Error::SwLocked), "SW has already locked the resource");
    assert_eq!(
        text(Error::SemaphoreBusy),
        "Failed to acquire the semaphore, FW or HW has it."
    );
    assert_eq!(
        text(Error::ReceiveAddress(105)),
        "Failed to write receive address at index 105"
    );
    assert_eq!(text(Error::NoValidNvmBank), "No valid NVM bank present");
    assert_eq!(text(Error::NvmParameters), "nvm parameter(s) out of bounds");
    assert_eq!(text(Error::NvmParameter), "nvm parameter out of bounds");
    assert_eq!(
        text(Error::FlashDescriptorInvalid),
        "Flash descriptor invalid. SW Sequencing must be used."
    );
    assert_eq!(text(Error::FlashBusy), "Flash controller busy, cannot get access");
    assert_eq!(text(Error::FlashCycleTimeout), "Flash cycle timeout");
    assert_eq!(text(Error::DwordAccessOnly), "Only 32 bit access supported in SPT");
    assert_eq!(text(Error::FlashSizeOrOffset), "Size or offset out of bounds");
    assert_eq!(
        text(Error::FlashOffsetOrHardware),
        "Offset too large or unsupported hardware"
    );
    assert_eq!(text(Error::FlashOffset), "offset > ICH_FLASH_LINEAR_ADDR_MASK");
    assert_eq!(Error::Reported(3).message(), None);
}

#[test]
fn state_of_an_unknown_device() {
    let hw = Hw::new(MacType::Mac_pch_cnp, 0x15BD);
    assert!(hw.is_wf());
    assert_eq!(hw.device_id, 0x15BD);
    assert_eq!(hw.mac.ops.init_hw, None);
    let mut bad = hw;
    bad.nvm.word_size = 2049;
    assert!(!bad.is_wf());
    let mut bad = hw;
    bad.mac.mta_reg_count = 129;
    assert!(!bad.is_wf());
}

#[test]
fn operations_that_ask() {
    assert!(Action::ReadRegister(0).needs_answer());
    assert!(Action::ReadFlashRegister(4).needs_answer());
    assert!(Action::ReadPciConfig(0xA8, 2).needs_answer());
    assert!(Action::PhyTypeFromId(0).needs_answer());
    assert!(!Action::WriteRegister(0, 0).needs_answer());
    assert!(!Action::MsecDelay(1).needs_answer());
    assert!(!Action::AssertCtxLockHeld.needs_answer());
}
