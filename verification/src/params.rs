//! The tables of operations and the parameters of the MAC.

use vstd::prelude::*;
use crate::consts::{E1000_ICH_RAR_ENTRIES, E1000_PCH2_RAR_ENTRIES, E1000_PCH_LPT_RAR_ENTRIES};
use crate::error::{AdResult, Error};
use crate::hw::{
    DevSpecIch8lan, Func, Hw, MacInfo, MacOps, MacType, MediaType, NvmInfo, NvmOps, PhyInfo, PhyOps,
};
use crate::io::Adapter;

verus! {

impl MacType {
    /// Whether the family is ICH8, ICH9 or ICH10.
    pub open spec fn ich(self) -> bool {
        self.since(MacType::Mac_ich8lan) && !self.since(MacType::Mac_pchlan)
    }

    /// Whether the family is one from PCH to Cannon Point.
    pub open spec fn pch(self) -> bool {
        self.since(MacType::Mac_pchlan) && self != MacType::Mac_newer
    }
}

/// How many receive addresses a family has.
pub open spec fn rar_entries(mac_type: MacType) -> u16 {
    if mac_type.since(MacType::Mac_pch_lpt) {
        E1000_PCH_LPT_RAR_ENTRIES
    } else if mac_type == MacType::Mac_pch2lan {
        E1000_PCH2_RAR_ENTRIES
    } else if mac_type == MacType::Mac_ich8lan {
        (E1000_ICH_RAR_ENTRIES - 1) as u16
    } else {
        E1000_ICH_RAR_ENTRIES
    }
}

impl MacOps {
    /// The operations that every family has.
    pub open spec fn with_common(self, mac_type: MacType) -> MacOps {
        let lpt = mac_type.since(MacType::Mac_pch_lpt);
        MacOps {
            get_bus_info: Some(Func::GetBusInfoIch8lan),
            set_lan_id: Some(Func::SetLanIdSinglePort),
            reset_hw: Some(Func::ResetHwIch8lan),
            init_hw: Some(Func::InitHwIch8lan),
            setup_link: Some(Func::SetupLinkIch8lan),
            setup_physical_interface: Some(
                if lpt {
                    Func::SetupCopperLinkPchLpt
                } else {
                    Func::SetupCopperLinkIch8lan
                },
            ),
            check_for_link: Some(Func::CheckForCopperLinkIch8lan),
            get_link_up_info: Some(Func::GetLinkUpInfoIch8lan),
            update_mc_addr_list: Some(
                if mac_type.since(MacType::Mac_pch2lan) && mac_type != MacType::Mac_newer {
                    Func::UpdateMcAddrListPch2lan
                } else {
                    Func::UpdateMcAddrListGeneric
                },
            ),
            clear_hw_cntrs: Some(Func::ClearHwCntrsIch8lan),
            rar_set: if lpt {
                Some(Func::RarSetPchLpt)
            } else if mac_type == MacType::Mac_pch2lan {
                Some(Func::RarSetPch2lan)
            } else {
                self.rar_set
            },
            set_obff_timer: if lpt {
                Some(Func::SetObffTimerPchLpt)
            } else {
                self.set_obff_timer
            },
            ..self
        }
    }

    /// The operations on the LEDs and the one that looks for a management
    /// mode.
    pub open spec fn with_led_ops(self, mac_type: MacType) -> MacOps {
        if mac_type.ich() {
            MacOps {
                check_mng_mode: Some(Func::CheckMngModeIch8lan),
                id_led_init: Some(Func::IdLedInitGeneric),
                blink_led: Some(Func::BlinkLedGeneric),
                setup_led: Some(Func::SetupLedGeneric),
                cleanup_led: Some(Func::CleanupLedIch8lan),
                led_on: Some(Func::LedOnIch8lan),
                led_off: Some(Func::LedOffIch8lan),
                ..self
            }
        } else if mac_type.pch() {
            MacOps {
                check_mng_mode: Some(Func::CheckMngModePchlan),
                id_led_init: Some(Func::IdLedInitPchlan),
                setup_led: Some(Func::SetupLedPchlan),
                cleanup_led: Some(Func::CleanupLedPchlan),
                led_on: Some(Func::LedOnPchlan),
                led_off: Some(Func::LedOffPchlan),
                ..self
            }
        } else {
            self
        }
    }
}

impl Hw {
    /// The state with the workaround for loss of the Kumeran lock enabled or
    /// disabled, on ICH8.
    pub open spec fn with_kmrn_workaround(self, state: bool) -> Hw {
        if self.mac.mac_type == MacType::Mac_ich8lan {
            Hw {
                dev_spec: DevSpecIch8lan { kmrn_lock_loss_workaround: state, ..self.dev_spec },
                ..self
            }
        } else {
            self
        }
    }

    /// The state with the parameters and operations of the MAC in place, and
    /// the workaround for loss of the Kumeran lock enabled on ICH8.
    pub open spec fn with_mac_params(self) -> Hw {
        let mac_type = self.mac.mac_type;
        Hw {
            phy: PhyInfo { media_type: MediaType::Copper, ..self.phy },
            mac: MacInfo {
                mta_reg_count: 32,
                rar_entry_count: rar_entries(mac_type),
                asf_firmware_present: true,
                has_fwsm: true,
                arc_subsystem_valid: false,
                adaptive_ifs: true,
                ops: self.mac.ops.with_common(mac_type).with_led_ops(mac_type),
                ..self.mac
            },
            ..self
        }.with_kmrn_workaround(true)
    }

    /// The state with the functions in place that initialize the parameters.
    pub open spec fn with_init_functions(self) -> Hw {
        Hw {
            mac: MacInfo {
                ops: MacOps { init_params: Some(Func::InitMacParamsIch8lan), ..self.mac.ops },
                ..self.mac
            },
            nvm: NvmInfo {
                ops: NvmOps { init_params: Some(Func::InitNvmParamsIch8lan), ..self.nvm.ops },
                ..self.nvm
            },
            phy: if self.mac.mac_type.pch() {
                PhyInfo {
                    ops: PhyOps { init_params: Some(Func::InitPhyParamsPchlan), ..self.phy.ops },
                    ..self.phy
                }
            } else {
                self.phy
            },
            ..self
        }
    }
}

/// The parameters of the MAC keep the software state well formed, and the
/// receive addresses, the base one and those shared, are as many as the
/// family has registers for.
pub proof fn law_mac_params_keep_wf(hw: Hw)
    requires
        hw.wf(),
    ensures
        hw.with_mac_params().wf(),
        hw.with_init_functions().wf(),
        5 <= hw.with_mac_params().mac.rar_entry_count <= 12,
{
}

/// Initializing the parameters of the MAC a second time changes nothing.
pub proof fn law_mac_params_idempotent(hw: Hw)
    ensures
        hw.with_mac_params().with_mac_params() == hw.with_mac_params(),
{
}

/// The workaround for loss of the Kumeran lock is enabled or disabled as asked
/// on ICH8, and nothing else changes; other families are left alone. The
/// parameters of the MAC enable it.
pub proof fn law_kmrn_workaround(hw: Hw, state: bool)
    ensures
        hw.mac.mac_type == MacType::Mac_ich8lan ==> {
            let set = hw.with_kmrn_workaround(state);
            &&& set.dev_spec.kmrn_lock_loss_workaround == state
            &&& set.with_kmrn_workaround(hw.dev_spec.kmrn_lock_loss_workaround) == hw
            &&& hw.with_mac_params().dev_spec.kmrn_lock_loss_workaround
        },
        hw.mac.mac_type != MacType::Mac_ich8lan ==> hw.with_kmrn_workaround(state) == hw,
{
}

/// Initializes the tables of functions that initialize the parameters of MAC,
/// NVM and PHY. Families before PCH are not supported.
pub fn init_function_pointers(adapter: &mut Adapter) -> (res: AdResult)
    requires
        old(adapter).wf(),
    ensures
        final(adapter).wf(),
        final(adapter)@ == old(adapter)@.with_hw(old(adapter).hw.with_init_functions()),
        res == if old(adapter).hw.mac.mac_type.pch() {
            Ok::<(), Error>(())
        } else {
            Err(Error::UnsupportedHardware)
        },
{
    adapter.hw.mac.ops.init_params = Some(Func::InitMacParamsIch8lan);
    adapter.hw.nvm.ops.init_params = Some(Func::InitNvmParamsIch8lan);
    match adapter.hw.mac.mac_type {
        MacType::Mac_pchlan
        | MacType::Mac_pch2lan
        | MacType::Mac_pch_lpt
        | MacType::Mac_pch_spt
        | MacType::Mac_pch_cnp => {
            adapter.hw.phy.ops.init_params = Some(Func::InitPhyParamsPchlan);
            Ok(())
        },
        _ => Err(Error::UnsupportedHardware),
    }
}

fn set_common_ops(ops: &mut MacOps, mac_type: MacType)
    ensures
        *final(ops) == old(ops).with_common(mac_type),
{
    ops.get_bus_info = Some(Func::GetBusInfoIch8lan);
    ops.set_lan_id = Some(Func::SetLanIdSinglePort);
    ops.reset_hw = Some(Func::ResetHwIch8lan);
    ops.init_hw = Some(Func::InitHwIch8lan);
    ops.setup_link = Some(Func::SetupLinkIch8lan);
    ops.setup_physical_interface = Some(Func::SetupCopperLinkIch8lan);
    ops.check_for_link = Some(Func::CheckForCopperLinkIch8lan);
    ops.get_link_up_info = Some(Func::GetLinkUpInfoIch8lan);
    ops.update_mc_addr_list = Some(Func::UpdateMcAddrListGeneric);
    ops.clear_hw_cntrs = Some(Func::ClearHwCntrsIch8lan);
    match mac_type {
        MacType::Mac_pch2lan => {
            ops.rar_set = Some(Func::RarSetPch2lan);
            ops.update_mc_addr_list = Some(Func::UpdateMcAddrListPch2lan);
        },
        MacType::Mac_pch_cnp | MacType::Mac_pch_lpt | MacType::Mac_pch_spt => {
            ops.update_mc_addr_list = Some(Func::UpdateMcAddrListPch2lan);
        },
        _ => {},
    }
    if mac_type.at_least(MacType::Mac_pch_lpt) {
        ops.rar_set = Some(Func::RarSetPchLpt);
        ops.setup_physical_interface = Some(Func::SetupCopperLinkPchLpt);
        ops.set_obff_timer = Some(Func::SetObffTimerPchLpt);
    }
}

fn set_led_ops(ops: &mut MacOps, mac_type: MacType)
    ensures
        *final(ops) == old(ops).with_led_ops(mac_type),
{
    match mac_type {
        MacType::Mac_ich8lan | MacType::Mac_ich9lan | MacType::Mac_ich10lan => {
            ops.check_mng_mode = Some(Func::CheckMngModeIch8lan);
            ops.id_led_init = Some(Func::IdLedInitGeneric);
            ops.blink_led = Some(Func::BlinkLedGeneric);
            ops.setup_led = Some(Func::SetupLedGeneric);
            ops.cleanup_led = Some(Func::CleanupLedIch8lan);
            ops.led_on = Some(Func::LedOnIch8lan);
            ops.led_off = Some(Func::LedOffIch8lan);
        },
        MacType::Mac_pchlan
        | MacType::Mac_pch2lan
        | MacType::Mac_pch_cnp
        | MacType::Mac_pch_lpt
        | MacType::Mac_pch_spt => {
            ops.check_mng_mode = Some(Func::CheckMngModePchlan);
            ops.id_led_init = Some(Func::IdLedInitPchlan);
            ops.setup_led = Some(Func::SetupLedPchlan);
            ops.cleanup_led = Some(Func::CleanupLedPchlan);
            ops.led_on = Some(Func::LedOnPchlan);
            ops.led_off = Some(Func::LedOffPchlan);
        },
        _ => {},
    }
}

/// Initializes the parameters and operations of the MAC.
pub fn init_mac_params_ich8lan(adapter: &mut Adapter) -> (res: AdResult)
    requires
        old(adapter).wf(),
    ensures
        final(adapter).wf(),
        (final(adapter)@, res) == (
            old(adapter)@.with_hw(old(adapter).hw.with_mac_params()),
            Ok::<(), Error>(()),
        ),
{
    let mac_type: MacType = adapter.hw.mac.mac_type;
    adapter.hw.phy.media_type = MediaType::Copper;
    adapter.hw.mac.mta_reg_count = 32;
    adapter.hw.mac.rar_entry_count = E1000_ICH_RAR_ENTRIES;
    if mac_type == MacType::Mac_ich8lan {
        adapter.hw.mac.rar_entry_count = E1000_ICH_RAR_ENTRIES - 1;
    }
    if mac_type == MacType::Mac_pch2lan {
        adapter.hw.mac.rar_entry_count = E1000_PCH2_RAR_ENTRIES;
    }
    if mac_type.at_least(MacType::Mac_pch_lpt) {
        adapter.hw.mac.rar_entry_count = E1000_PCH_LPT_RAR_ENTRIES;
    }
    adapter.hw.mac.asf_firmware_present = true;
    adapter.hw.mac.has_fwsm = true;
    adapter.hw.mac.arc_subsystem_valid = false;
    adapter.hw.mac.adaptive_ifs = true;
    let mut ops: MacOps = adapter.hw.mac.ops;
    set_common_ops(&mut ops, mac_type);
    set_led_ops(&mut ops, mac_type);
    adapter.hw.mac.ops = ops;
    if mac_type == MacType::Mac_ich8lan {
        set_kmrn_lock_loss_workaround_ich8lan(adapter, true);
    }
    Ok(())
}

/// Sets whether the workaround for loss of the Kumeran lock is enabled. Only
/// ICH8 has it.
pub fn set_kmrn_lock_loss_workaround_ich8lan(adapter: &mut Adapter, state: bool)
    requires
        old(adapter).wf(),
    ensures
        final(adapter).wf(),
        final(adapter)@ == old(adapter)@.with_hw(old(adapter).hw.with_kmrn_workaround(state)),
{
    if adapter.hw.mac.mac_type == MacType::Mac_ich8lan {
        adapter.hw.dev_spec.kmrn_lock_loss_workaround = state;
    }
}

} // verus!
