//! The parameters of MAC, PHY and NVM, family by family.

use vstd::prelude::*;
use crate::bits::lemma_nvm_sizes;
use crate::error::Error;
use crate::events::group_events;
use crate::hw::{Func, Hw, MacType, MediaType, NvmType, PhyType};
use crate::io::{Action, Run};
use crate::laws::link::{lynx_point_on, sunrise_point_on};
use crate::resume::group_resumes;

verus! {

/// The parameters of the MAC, by family: how many receive addresses there are,
/// and which functions there are that differ.
pub proof fn law_mac_params(hw: Hw)
    ensures
        ({
            let m = hw.mac.mac_type;
            let set = hw.with_mac_params();
            let ops = set.mac.ops;
            let ich = m == MacType::Mac_ich8lan || m == MacType::Mac_ich9lan || m
                == MacType::Mac_ich10lan;
            let pch = m == MacType::Mac_pchlan || m == MacType::Mac_pch2lan || m
                == MacType::Mac_pch_lpt || m == MacType::Mac_pch_spt || m == MacType::Mac_pch_cnp;
            &&& set.phy.media_type == MediaType::Copper
            &&& set.mac.mta_reg_count == 32
            &&& set.mac.rar_entry_count == if lynx_point_on(m) {
                12u16
            } else if m == MacType::Mac_pch2lan {
                5u16
            } else if m == MacType::Mac_ich8lan {
                6u16
            } else {
                7u16
            }
            &&& set.mac.asf_firmware_present && set.mac.has_fwsm && set.mac.adaptive_ifs
            &&& !set.mac.arc_subsystem_valid
            &&& ops.get_bus_info == Some(Func::GetBusInfoIch8lan)
            &&& ops.set_lan_id == Some(Func::SetLanIdSinglePort)
            &&& ops.reset_hw == Some(Func::ResetHwIch8lan)
            &&& ops.init_hw == Some(Func::InitHwIch8lan)
            &&& ops.setup_link == Some(Func::SetupLinkIch8lan)
            &&& ops.check_for_link == Some(Func::CheckForCopperLinkIch8lan)
            &&& ops.get_link_up_info == Some(Func::GetLinkUpInfoIch8lan)
            &&& ops.clear_hw_cntrs == Some(Func::ClearHwCntrsIch8lan)
            &&& lynx_point_on(m) ==> {
                &&& ops.setup_physical_interface == Some(Func::SetupCopperLinkPchLpt)
                &&& ops.rar_set == Some(Func::RarSetPchLpt)
                &&& ops.set_obff_timer == Some(Func::SetObffTimerPchLpt)
            }
            &&& !lynx_point_on(m) ==> ops.setup_physical_interface == Some(
                Func::SetupCopperLinkIch8lan,
            ) && ops.set_obff_timer == hw.mac.ops.set_obff_timer
            &&& m == MacType::Mac_pch2lan ==> ops.rar_set == Some(Func::RarSetPch2lan)
            &&& !lynx_point_on(m) && m != MacType::Mac_pch2lan ==> ops.rar_set
                == hw.mac.ops.rar_set
            &&& ops.update_mc_addr_list == if pch && m != MacType::Mac_pchlan {
                Some(Func::UpdateMcAddrListPch2lan)
            } else {
                Some(Func::UpdateMcAddrListGeneric)
            }
            &&& ich ==> {
                &&& ops.check_mng_mode == Some(Func::CheckMngModeIch8lan)
                &&& ops.id_led_init == Some(Func::IdLedInitGeneric)
                &&& ops.blink_led == Some(Func::BlinkLedGeneric)
                &&& ops.setup_led == Some(Func::SetupLedGeneric)
                &&& ops.cleanup_led == Some(Func::CleanupLedIch8lan)
                &&& ops.led_on == Some(Func::LedOnIch8lan)
                &&& ops.led_off == Some(Func::LedOffIch8lan)
            }
            &&& pch ==> {
                &&& ops.check_mng_mode == Some(Func::CheckMngModePchlan)
                &&& ops.id_led_init == Some(Func::IdLedInitPchlan)
                &&& ops.blink_led == hw.mac.ops.blink_led
                &&& ops.setup_led == Some(Func::SetupLedPchlan)
                &&& ops.cleanup_led == Some(Func::CleanupLedPchlan)
                &&& ops.led_on == Some(Func::LedOnPchlan)
                &&& ops.led_off == Some(Func::LedOffPchlan)
            }
            &&& !ich && !pch ==> {
                &&& ops.id_led_init == hw.mac.ops.id_led_init
                &&& ops.led_on == hw.mac.ops.led_on && ops.led_off == hw.mac.ops.led_off
            }
            &&& set.dev_spec.kmrn_lock_loss_workaround == (m == MacType::Mac_ich8lan
                || hw.dev_spec.kmrn_lock_loss_workaround)
            &&& set.nvm == hw.nvm && set.fc == hw.fc && set.bus == hw.bus && set.device_id
                == hw.device_id
            &&& set.mac.mac_type == m
        }),
{
}

/// The functions that initialize the parameters: those of the PHY on PCH
/// devices alone.
pub proof fn law_init_functions(hw: Hw)
    ensures
        ({
            let m = hw.mac.mac_type;
            let set = hw.with_init_functions();
            let pch = m == MacType::Mac_pchlan || m == MacType::Mac_pch2lan || m
                == MacType::Mac_pch_lpt || m == MacType::Mac_pch_spt || m == MacType::Mac_pch_cnp;
            &&& set.mac.ops.init_params == Some(Func::InitMacParamsIch8lan)
            &&& set.nvm.ops.init_params == Some(Func::InitNvmParamsIch8lan)
            &&& set.phy.ops.init_params == if pch {
                Some(Func::InitPhyParamsPchlan)
            } else {
                hw.phy.ops.init_params
            }
        }),
{
}

/// The parameters of the PHY before it is identified, and the functions that
/// its family adds once it is.
pub proof fn law_phy_params(hw: Hw, phy_type: PhyType)
    ensures
        ({
            let set = hw.with_pch_phy_ops();
            let ops = set.phy.ops;
            &&& set.phy.addr == 1 && set.phy.reset_delay_us == 100 && set.phy.id == 0
            &&& set.phy.autoneg_mask == 0x2F
            &&& ops.acquire == Some(Func::AcquireSwflagIch8lan)
            &&& ops.release == Some(Func::ReleaseSwflagIch8lan)
            &&& ops.check_reset_block == Some(Func::CheckResetBlockIch8lan)
            &&& ops.get_cfg_done == Some(Func::GetCfgDoneIch8lan)
            &&& ops.reset == Some(Func::PhyHwResetIch8lan)
            &&& ops.set_page == Some(Func::SetPageIgp)
            &&& ops.read_reg == Some(Func::ReadPhyRegHv)
            &&& ops.read_reg_locked == Some(Func::ReadPhyRegHvLocked)
            &&& ops.read_reg_page == Some(Func::ReadPhyRegPageHv)
            &&& ops.write_reg == Some(Func::WritePhyRegHv)
            &&& ops.write_reg_locked == Some(Func::WritePhyRegHvLocked)
            &&& ops.write_reg_page == Some(Func::WritePhyRegPageHv)
            &&& ops.set_d0_lplu_state == Some(Func::SetLpluStatePchlan)
            &&& ops.set_d3_lplu_state == Some(Func::SetLpluStatePchlan)
            &&& ops.power_up == Some(Func::PowerUpPhyCopper)
            &&& ops.power_down == Some(Func::PowerDownPhyCopperIch8lan)
        }),
        ({
            let ops = hw.with_phy_type(phy_type).phy.ops;
            let new = phy_type == PhyType::Type_82577 || phy_type == PhyType::Type_82579
                || phy_type == PhyType::Type_i217;
            &&& hw.with_phy_type(phy_type).phy.phy_type == phy_type
            &&& new ==> {
                &&& ops.check_polarity == Some(Func::CheckPolarity82577)
                &&& ops.force_speed_duplex == Some(Func::PhyForceSpeedDuplex82577)
                &&& ops.get_cable_length == Some(Func::GetCableLength82577)
                &&& ops.get_info == Some(Func::GetPhyInfo82577)
                &&& ops.commit == Some(Func::PhySwResetGeneric)
            }
            &&& phy_type == PhyType::Type_82578 ==> {
                &&& ops.check_polarity == Some(Func::CheckPolarityM88)
                &&& ops.force_speed_duplex == Some(Func::PhyForceSpeedDuplexM88)
                &&& ops.get_cable_length == Some(Func::GetCableLengthM88)
                &&& ops.get_info == Some(Func::GetPhyInfoM88)
            }
        }),
{
}

/// The size and place of the NVM. From Sunrise Point on the straps give the
/// size of it, of which each bank has half, and the flash registers follow
/// those of the MAC; before, the flash region gives both, and the registers
/// have to be mapped. The words are read by doublewords in the one case and by
/// words in the other.
pub proof fn law_nvm_params(run: Run, mac_type: MacType)
    requires
        run.hw.mac.mac_type == mac_type,
        run.hw.wf(),
        !run.init_nvm().0.stalled,
    ensures
        ({
            let (end, r) = run.init_nvm();
            let nvm = end.hw.nvm;
            let new = sunrise_point_on(mac_type);
            let strap = run.read_register(0xC).1;
            let region = run.read_flash_register(0).1;
            let (first, last) = (region % 0x2000, (region / 0x1_0000) % 0x2000);
            &&& nvm.nvm_type == NvmType::FlashSw
            &&& new ==> {
                &&& r is Ok
                &&& end.trace == run.trace.push(Action::ReadRegister(0xC))
                &&& nvm.flash_base_addr == 0
                &&& nvm.flash_bank_size == ((strap / 2) % 32 + 1) * 1024
                &&& end.hw.flash_address == run.hw.hw_addr + 0xE000
                &&& nvm.ops.read == Some(Func::ReadNvmSpt)
                &&& nvm.ops.update == Some(Func::UpdateNvmChecksumSpt)
            }
            &&& !new && run.hw.flash_address == 0 ==> r == Err::<(), Error>(Error::FlashNotMapped)
            &&& !new && run.hw.flash_address != 0 ==> {
                &&& r is Ok
                &&& end.trace == run.trace.push(Action::ReadFlashRegister(0))
                &&& nvm.flash_base_addr == first * 4096
                &&& first <= last ==> nvm.flash_bank_size == (last + 1 - first) * 1024
                &&& end.hw.flash_address == run.hw.flash_address
                &&& nvm.ops.read == Some(Func::ReadNvmIch8lan)
                &&& nvm.ops.update == Some(Func::UpdateNvmChecksumIch8lan)
            }
            &&& r is Ok ==> {
                &&& nvm.word_size == 2048
                &&& nvm.ops.acquire == Some(Func::AcquireNvmIch8lan)
                &&& nvm.ops.release == Some(Func::ReleaseNvmIch8lan)
                &&& nvm.ops.valid_led_default == Some(Func::ValidLedDefaultIch8lan)
                &&& nvm.ops.validate == Some(Func::ValidateNvmChecksumIch8lan)
                &&& nvm.ops.write == Some(Func::WriteNvmIch8lan)
            }
        }),
{
    broadcast use {group_resumes, group_events};

    reveal(Run::init_nvm);
    reveal(Run::ask);
    lemma_nvm_sizes(run.read_register(0xC).1);
    let region = run.read_flash_register(0).1;
    lemma_nvm_sizes(region);
    let (first, last) = (region % 0x2000, (region / 0x1_0000) % 0x2000);
    if first <= last {
        lemma_nvm_sizes((last + 1 - first) as u32);
    }
}

} // verus!
