//! Configuring the PHY, above all after a reset.

use vstd::prelude::*;
use crate::bits::lemma_bits_32;
use crate::consts::{
    BM_PORT_GEN_CFG, BM_WUC_HOST_WU_BIT, E1000_DEV_ID_ICH8_IGP_AMT, E1000_DEV_ID_ICH8_IGP_C,
    E1000_EECD, E1000_EECD_PRES, E1000_EXTCNF_CTRL, E1000_EXTCNF_CTRL_EXT_CNF_POINTER_MASK,
    E1000_EXTCNF_CTRL_EXT_CNF_POINTER_SHIFT, E1000_EXTCNF_CTRL_LCD_WRITE_ENABLE,
    E1000_EXTCNF_CTRL_OEM_WRITE_ENABLE, E1000_EXTCNF_SIZE, E1000_EXTCNF_SIZE_EXT_PCIE_LENGTH_MASK,
    E1000_EXTCNF_SIZE_EXT_PCIE_LENGTH_SHIFT, E1000_FEXTNVM, E1000_FEXTNVM_SW_CONFIG,
    E1000_FEXTNVM_SW_CONFIG_ICH8M, E1000_FWSM, E1000_ICH_FWSM_FW_VALID, E1000_LEDCTL,
    E1000_PHY_CTRL, E1000_PHY_CTRL_D0A_LPLU, E1000_PHY_CTRL_GBE_DISABLE,
    E1000_PHY_CTRL_NOND0A_GBE_DISABLE, E1000_PHY_CTRL_NOND0A_LPLU, E1000_STATUS,
    E1000_STATUS_PHYRA, E1000_STRAP, E1000_STRAP_SMBUS_ADDRESS_MASK,
    E1000_STRAP_SMBUS_ADDRESS_SHIFT, E1000_STRAP_SMT_FREQ_MASK, E1000_STRAP_SMT_FREQ_SHIFT,
    HV_LED_CONFIG, HV_OEM_BITS, HV_OEM_BITS_GBE_DIS, HV_OEM_BITS_LPLU, HV_OEM_BITS_RESTART_AN,
    HV_SMB_ADDR, HV_SMB_ADDR_FREQ_HIGH_SHIFT, HV_SMB_ADDR_FREQ_LOW_SHIFT, HV_SMB_ADDR_FREQ_MASK,
    HV_SMB_ADDR_MASK, HV_SMB_ADDR_PEC_EN, HV_SMB_ADDR_VALID, I82579_LPI_UPDATE_TIMER,
    I82579_MSE_LINK_DOWN, I82579_MSE_THRESHOLD, IGP01E1000_PHY_PAGE_SELECT, PHY_REG_MASK,
};
use crate::emi::write_emi_reg_locked;
use crate::error::AdResult;
use crate::hw::{Hw, MacType, PhyType};
use crate::io::{Adapter, Call, Feature, Run};
use crate::nvm::valid_nvm_bank_detect_ich8lan;
use crate::phy_access::set_mdio_slow_mode_hv;
use crate::swflag::{gate_hw_phy_config_ich8lan, lan_init_done_ich8lan};

verus! {

/// The SMBus address register of the PHY, where `reg` is what it holds and
/// `strap` what the strapping register says. On an i217 the bus frequency is
/// set too, if the straps give one.
pub open spec fn smbus_address(strap: u32, reg: u16, i217: bool) -> u16 {
    let freq = (strap & E1000_STRAP_SMT_FREQ_MASK) >> E1000_STRAP_SMT_FREQ_SHIFT;
    let addr = (strap & E1000_STRAP_SMBUS_ADDRESS_MASK) >> E1000_STRAP_SMBUS_ADDRESS_SHIFT;
    let valid = ((reg & !HV_SMB_ADDR_MASK) | (addr as u16)) | (HV_SMB_ADDR_PEC_EN
        | HV_SMB_ADDR_VALID);
    if i217 && freq > 0 {
        let f = (freq - 1) as u32;
        ((valid & !HV_SMB_ADDR_FREQ_MASK) | (((f & 1) << HV_SMB_ADDR_FREQ_LOW_SHIFT) as u16)) | (((f
            & 2) << (HV_SMB_ADDR_FREQ_HIGH_SHIFT - 1)) as u16)
    } else {
        valid
    }
}

/// The OEM bits register of the PHY: gigabit speed is disabled and low power
/// link up enabled as the MAC says for the device state.
pub open spec fn oem_bits(reg: u16, phy_ctrl: u32, d0_state: bool) -> u16 {
    let gbe = if d0_state {
        E1000_PHY_CTRL_GBE_DISABLE
    } else {
        E1000_PHY_CTRL_GBE_DISABLE | E1000_PHY_CTRL_NOND0A_GBE_DISABLE
    };
    let lplu = if d0_state {
        E1000_PHY_CTRL_D0A_LPLU
    } else {
        E1000_PHY_CTRL_D0A_LPLU | E1000_PHY_CTRL_NOND0A_LPLU
    };
    let kept = reg & !(HV_OEM_BITS_GBE_DIS | HV_OEM_BITS_LPLU);
    let speed = if phy_ctrl & gbe != 0 {
        kept | HV_OEM_BITS_GBE_DIS
    } else {
        kept
    };
    if phy_ctrl & lplu != 0 {
        speed | HV_OEM_BITS_LPLU
    } else {
        speed
    }
}

/// The OEM bits say what the MAC says for the device state, and the rest of
/// the register is kept.
pub proof fn law_oem_bits(reg: u16, phy_ctrl: u32)
    ensures
        oem_bits(reg, phy_ctrl, true) & HV_OEM_BITS_GBE_DIS != 0 <==> phy_ctrl
            & E1000_PHY_CTRL_GBE_DISABLE != 0,
        oem_bits(reg, phy_ctrl, true) & HV_OEM_BITS_LPLU != 0 <==> phy_ctrl
            & E1000_PHY_CTRL_D0A_LPLU != 0,
        oem_bits(reg, phy_ctrl, false) & HV_OEM_BITS_GBE_DIS != 0 <==> phy_ctrl
            & E1000_PHY_CTRL_GBE_DISABLE != 0 || phy_ctrl & E1000_PHY_CTRL_NOND0A_GBE_DISABLE != 0,
        oem_bits(reg, phy_ctrl, false) & HV_OEM_BITS_LPLU != 0 <==> phy_ctrl
            & E1000_PHY_CTRL_D0A_LPLU != 0 || phy_ctrl & E1000_PHY_CTRL_NOND0A_LPLU != 0,
        forall|d0_state: bool|
            #[trigger] oem_bits(reg, phy_ctrl, d0_state) & !(HV_OEM_BITS_GBE_DIS | HV_OEM_BITS_LPLU)
                == reg & !(HV_OEM_BITS_GBE_DIS | HV_OEM_BITS_LPLU),
{
    assert({
        let k = reg & !(0x40u16 | 0x4);
        &&& k & 0x40 == 0 && k & 0x4 == 0 && k & !(0x40u16 | 0x4) == k
        &&& (k | 0x40) & 0x40 != 0 && (k | 0x40) & 0x4 == 0 && (k | 0x40) & !(0x40u16 | 0x4) == k
        &&& (k | 0x4) & 0x40 == 0 && (k | 0x4) & 0x4 != 0 && (k | 0x4) & !(0x40u16 | 0x4) == k
        &&& (k | 0x40 | 0x4) & 0x40 != 0 && (k | 0x40 | 0x4) & 0x4 != 0
        &&& (k | 0x40 | 0x4) & !(0x40u16 | 0x4) == k
    }) by (bit_vector);
    assert({
        &&& (phy_ctrl & (0x40u32 | 0x8) != 0) == (phy_ctrl & 0x40 != 0 || phy_ctrl & 0x8 != 0)
        &&& (phy_ctrl & (0x2u32 | 0x4) != 0) == (phy_ctrl & 0x2 != 0 || phy_ctrl & 0x4 != 0)
    }) by (bit_vector);
}

/// The SMBus address register holds the address of the straps, marked valid
/// and with error checking.
pub proof fn law_smbus_address(strap: u32, reg: u16)
    ensures
        smbus_address(strap, reg, false) & HV_SMB_ADDR_MASK == (strap >> 17) & 0x7F,
        smbus_address(strap, reg, true) & HV_SMB_ADDR_MASK == (strap >> 17) & 0x7F,
        smbus_address(strap, reg, false) & 0x0280 == 0x0280,
        smbus_address(strap, reg, true) & 0x0280 == 0x0280,
{
    let f = (((strap & 0x3000) >> 12) - 1) as u32;
    assert({
        let addr = (strap & 0x00FE_0000) >> 17;
        let valid = ((reg & !0x007F) | (addr as u16)) | (0x0200u16 | 0x0080u16);
        let with_freq = ((valid & !0x1100) | (((f & 1) << 8u32) as u16)) | (((f & 2)
            << 11u32) as u16);
        &&& valid & 0x007F == (strap >> 17) & 0x7F
        &&& valid & 0x0280 == 0x0280
        &&& with_freq & 0x007F == (strap >> 17) & 0x7F
        &&& with_freq & 0x0280 == 0x0280
    }) by (bit_vector);
}

impl Hw {
    /// The bit that says whether software configures the PHY, on devices where
    /// it may.
    pub open spec fn sw_config_bit(self) -> Option<u32> {
        if self.mac.mac_type == MacType::Mac_ich8lan {
            if self.phy.phy_type != PhyType::Type_igp_3 {
                None
            } else if self.device_id == E1000_DEV_ID_ICH8_IGP_AMT || self.device_id
                == E1000_DEV_ID_ICH8_IGP_C {
                Some(E1000_FEXTNVM_SW_CONFIG)
            } else {
                Some(E1000_FEXTNVM_SW_CONFIG_ICH8M)
            }
        } else if self.mac.mac_type.since(MacType::Mac_pchlan) && self.mac.mac_type
            != MacType::Mac_newer {
            Some(E1000_FEXTNVM_SW_CONFIG_ICH8M)
        } else {
            None
        }
    }
}

impl Run {
    /// Copies the SMBus address from the straps to the PHY.
    #[verifier::opaque]
    pub open spec fn copy_smbus_address(self) -> (Run, AdResult) {
        let (s, strap) = self.read_register(E1000_STRAP);
        let (s, r, reg) = s.fetch(Call::ReadPhyRegHvLocked(HV_SMB_ADDR, 0));
        if r is Err {
            (s, r)
        } else {
            let i217 = s.hw.phy.phy_type == PhyType::Type_i217;
            s.invoke(Call::WritePhyRegHvLocked(HV_SMB_ADDR, smbus_address(strap, reg, i217)))
        }
    }

    /// Copies the SMBus address and the LED configuration to the PHY, where
    /// hardware does not: on PCH if the OEM bits are not for hardware to
    /// write, and on later families.
    #[verifier::opaque]
    pub open spec fn configure_smbus_and_led(self, extcnf_ctrl: u32) -> (Run, AdResult) {
        if (self.is_mac(MacType::Mac_pchlan) && extcnf_ctrl & E1000_EXTCNF_CTRL_OEM_WRITE_ENABLE
            == 0) || self.since(MacType::Mac_pch2lan) {
            let (s, r) = self.copy_smbus_address();
            if r is Err {
                (s, r)
            } else {
                let (s, ledctl) = s.read_register(E1000_LEDCTL);
                s.invoke(Call::WritePhyRegHvLocked(HV_LED_CONFIG, ledctl as u16))
            }
        } else {
            (self, Ok(()))
        }
    }

    /// Applies entries `i` to `count - 1` of the extended configuration region
    /// that begins at NVM word `word`. An entry is a value and a register
    /// address; a value for the page select register is the page of the
    /// registers that follow. `data` and `addr` are what the last entry left
    /// behind.
    pub open spec fn apply_config_entries(
        self,
        word: int,
        i: int,
        count: int,
        page: u16,
        data: u16,
        addr: u16,
    ) -> (Run, AdResult)
        decreases count - i,
    {
        if i >= count {
            (self, Ok(()))
        } else {
            let (s, r, data) = self.nvm_read_word((word + i * 2) as u16, data);
            if r is Err {
                (s, r)
            } else {
                let (s, r, addr) = s.nvm_read_word((word + i * 2 + 1) as u16, addr);
                if r is Err {
                    (s, r)
                } else if addr == IGP01E1000_PHY_PAGE_SELECT {
                    s.apply_config_entries(word, i + 1, count, data, data, addr)
                } else {
                    let reg = (addr & PHY_REG_MASK) | page;
                    let (s, r) = s.phy_write_reg_locked(reg as u32, data);
                    if r is Err {
                        (s, r)
                    } else {
                        s.apply_config_entries(word, i + 1, count, page, data, reg)
                    }
                }
            }
        }
    }

    /// Configures the PHY from the extended configuration region of the NVM,
    /// if the NVM leaves that to software and there is such a region, with the
    /// semaphore held.
    #[verifier::opaque]
    pub open spec fn apply_extended_config(self, sw_config: u32) -> (Run, AdResult) {
        let (s, fextnvm) = self.read_register(E1000_FEXTNVM);
        if fextnvm & sw_config == 0 {
            (s, Ok(()))
        } else {
            let (s, extcnf) = s.read_register(E1000_EXTCNF_CTRL);
            if !s.since(MacType::Mac_pch2lan) && extcnf & E1000_EXTCNF_CTRL_LCD_WRITE_ENABLE != 0 {
                (s, Ok(()))
            } else {
                let (s, v) = s.read_register(E1000_EXTCNF_SIZE);
                let size = (v & E1000_EXTCNF_SIZE_EXT_PCIE_LENGTH_MASK)
                    >> E1000_EXTCNF_SIZE_EXT_PCIE_LENGTH_SHIFT;
                let base = (extcnf & E1000_EXTCNF_CTRL_EXT_CNF_POINTER_MASK)
                    >> E1000_EXTCNF_CTRL_EXT_CNF_POINTER_SHIFT;
                if size == 0 {
                    (s, Ok(()))
                } else {
                    let (s, r) = s.configure_smbus_and_led(extcnf);
                    if r is Err {
                        (s, r)
                    } else {
                        s.apply_config_entries(base * 2, 0, size as int, 0, 0, 0)
                    }
                }
            }
        }
    }

    #[verifier::opaque]
    pub open spec fn sw_lcd_config(self) -> (Run, AdResult) {
        match self.hw.sw_config_bit() {
            None => (self, Ok(())),
            Some(bit) => {
                let (s, r) = self.phy_acquire();
                if r is Err {
                    (s, r)
                } else {
                    let (s, r) = s.apply_extended_config(bit);
                    s.release_and(r)
                }
            },
        }
    }

    /// Sets the OEM bits in the PHY as the NVM says, and restarts
    /// auto-negotiation with them where the firmware does not block it, with
    /// the semaphore held.
    #[verifier::opaque]
    pub open spec fn apply_oem_bits(self, d0_state: bool) -> (Run, AdResult) {
        let (s, phy_ctrl) = self.read_register(E1000_PHY_CTRL);
        let (s, r, reg) = s.phy_read_reg_locked(HV_OEM_BITS, 0);
        if r is Err {
            (s, r)
        } else {
            let bits = oem_bits(reg, phy_ctrl, d0_state);
            if d0_state || !s.is_mac(MacType::Mac_pchlan) {
                let (s, blocked) = s.check_reset_block();
                match blocked {
                    Err(e) => (s, Err(e)),
                    Ok(true) => s.phy_write_reg_locked(HV_OEM_BITS, bits),
                    Ok(false) => s.phy_write_reg_locked(
                        HV_OEM_BITS,
                        bits | HV_OEM_BITS_RESTART_AN,
                    ),
                }
            } else {
                s.phy_write_reg_locked(HV_OEM_BITS, bits)
            }
        }
    }

    /// Whether the NVM leaves the OEM bits to software.
    #[verifier::opaque]
    pub open spec fn oem_bits_by_software(self) -> (Run, bool) {
        let (s, extcnf) = if self.is_mac(MacType::Mac_pchlan) {
            self.read_register(E1000_EXTCNF_CTRL)
        } else {
            (self, 0)
        };
        if extcnf & E1000_EXTCNF_CTRL_OEM_WRITE_ENABLE != 0 {
            (s, false)
        } else {
            let (s, fextnvm) = s.read_register(E1000_FEXTNVM);
            (s, fextnvm & E1000_FEXTNVM_SW_CONFIG_ICH8M != 0)
        }
    }

    #[verifier::opaque]
    pub open spec fn oem_bits_config(self, d0_state: bool) -> (Run, AdResult) {
        if !self.since(MacType::Mac_pchlan) {
            (self, Ok(()))
        } else {
            let (s, r) = self.phy_acquire();
            if r is Err {
                (s, r)
            } else {
                let (s, by_software) = s.oem_bits_by_software();
                if by_software {
                    let (s, r) = s.apply_oem_bits(d0_state);
                    s.release_and(r)
                } else {
                    s.phy_release()
                }
            }
        }
    }

    /// The workarounds of the 82579 after a reset. That the first of the two
    /// settings cannot be written is no error, but then the second is left.
    #[verifier::opaque]
    pub open spec fn lv_phy_workarounds(self) -> (Run, AdResult) {
        if !self.is_mac(MacType::Mac_pch2lan) {
            (self, Ok(()))
        } else {
            let (s, r) = self.incomplete(Feature::SetMdioSlowModeHv);
            if r is Err {
                (s, r)
            } else {
                let (s, r) = s.phy_acquire();
                if r is Err {
                    (s, r)
                } else {
                    let (s, r) = s.write_emi(I82579_MSE_THRESHOLD, 0x0034);
                    if r is Ok {
                        let (s, r) = s.write_emi(I82579_MSE_LINK_DOWN, 0x0005);
                        s.release_and(r)
                    } else {
                        s.release_and(Ok(()))
                    }
                }
            }
        }
    }

    /// The workarounds that the PHY of the MAC family needs after a reset.
    #[verifier::opaque]
    pub open spec fn reset_workarounds(self) -> (Run, AdResult) {
        let (s, r) = if self.is_mac(MacType::Mac_pchlan) {
            self.incomplete(Feature::HvPhyWorkaroundsIch8lan)
        } else {
            (self, Ok(()))
        };
        if r is Err {
            (s, r)
        } else if s.is_mac(MacType::Mac_pch2lan) {
            s.lv_phy_workarounds()
        } else {
            (s, Ok(()))
        }
    }

    /// Clears the host wakeup bit of the PHY, on PCH and later.
    #[verifier::opaque]
    pub open spec fn clear_host_wakeup(self) -> Run {
        if self.since(MacType::Mac_pchlan) {
            let (s, _, reg) = self.phy_read_reg(BM_PORT_GEN_CFG, 0);
            s.phy_write_reg(BM_PORT_GEN_CFG, reg & !BM_WUC_HOST_WU_BIT).0
        } else {
            self
        }
    }

    /// Ungates PHY configuration by hardware on an 82579, if no firmware is
    /// found.
    #[verifier::opaque]
    pub open spec fn ungate_if_unmanaged(self) -> Run {
        if self.is_mac(MacType::Mac_pch2lan) {
            let (s, fwsm) = self.read_register(E1000_FWSM);
            if fwsm & E1000_ICH_FWSM_FW_VALID == 0 {
                s.msec_delay(10).gate_phy_config(false)
            } else {
                s
            }
        } else {
            self
        }
    }

    /// Gates PHY configuration by hardware on an 82579, if no firmware is
    /// found.
    #[verifier::opaque]
    pub open spec fn gate_if_unmanaged(self) -> Run {
        if self.is_mac(MacType::Mac_pch2lan) {
            let (s, fwsm) = self.read_register(E1000_FWSM);
            if fwsm & E1000_ICH_FWSM_FW_VALID == 0 {
                s.gate_phy_config(true)
            } else {
                s
            }
        } else {
            self
        }
    }

    /// Sets the timer of low power idle to 200 us.
    #[verifier::opaque]
    pub open spec fn set_lpi_timer(self) -> (Run, AdResult) {
        let (s, r) = self.phy_acquire();
        if r is Err {
            (s, r)
        } else {
            let (s, r) = s.write_emi(I82579_LPI_UPDATE_TIMER, 0x1387);
            s.release_and(r)
        }
    }

    #[verifier::opaque]
    pub open spec fn post_phy_reset(self) -> (Run, AdResult) {
        let (s, blocked) = self.check_reset_block();
        if blocked matches Ok(true) {
            (s, Ok(()))
        } else {
            let (s, r) = s.msec_delay(10).reset_workarounds();
            if r is Err {
                (s, r)
            } else {
                let (s, r) = s.clear_host_wakeup().sw_lcd_config();
                if r is Err {
                    (s, r)
                } else {
                    s.oem_bits_config(true).0.ungate_if_unmanaged().set_lpi_timer()
                }
            }
        }
    }

    #[verifier::opaque]
    pub open spec fn phy_hw_reset(self) -> (Run, AdResult) {
        let (s, r) = self.gate_if_unmanaged().invoke(Call::PhyHwResetGeneric);
        if r is Err {
            (s, r)
        } else {
            s.post_phy_reset()
        }
    }

    /// Clears the indication that the PHY was reset.
    #[verifier::opaque]
    pub open spec fn clear_phy_reset_asserted(self) -> Run {
        let (s, status) = self.read_register(E1000_STATUS);
        if status & E1000_STATUS_PHYRA != 0 {
            s.write_register(E1000_STATUS, status & !E1000_STATUS_PHYRA)
        } else {
            s
        }
    }

    /// Makes sure that there is configuration data: a valid bank from ICH10
    /// on, an EEPROM before.
    #[verifier::opaque]
    pub open spec fn require_configuration(self) -> (Run, AdResult) {
        if self.since(MacType::Mac_ich10lan) {
            let (s, r, _) = self.detect_bank();
            (s, r)
        } else {
            let (s, eecd) = self.read_register(E1000_EECD);
            if eecd & E1000_EECD_PRES == 0 && s.hw.phy.phy_type == PhyType::Type_igp_3 {
                s.incomplete(Feature::PhyInitScriptIgp3)
            } else {
                (s, Ok(()))
            }
        }
    }

    #[verifier::opaque]
    pub open spec fn get_cfg_done(self) -> (Run, AdResult) {
        let (s, _) = self.invoke(Call::GetCfgDoneGeneric);
        if s.since(MacType::Mac_ich10lan) {
            s.lan_init_done().clear_phy_reset_asserted().require_configuration()
        } else {
            let (s, r) = s.invoke(Call::GetAutoRdDoneGeneric);
            if r is Err {
                (s, Ok(()))
            } else {
                s.clear_phy_reset_asserted().require_configuration()
            }
        }
    }
}

/// Whatever comes of configuring the PHY, once the semaphore was acquired the
/// last thing done is to release it.
pub proof fn law_phy_is_released(run: Run, d0_state: bool)
    requires
        run.phy_acquire().1 is Ok,
    ensures
        ({
            let s = run.sw_lcd_config().0;
            run.hw.sw_config_bit() is Some && !s.stalled ==> s.just_released()
        }),
        ({
            let s = run.oem_bits_config(d0_state).0;
            run.since(MacType::Mac_pchlan) && !s.stalled ==> s.just_released()
        }),
        ({
            let s = run.set_lpi_timer().0;
            !s.stalled ==> s.just_released()
        }),
{
    reveal(Run::call);
    reveal(Run::sw_lcd_config);
    reveal(Run::oem_bits_config);
    reveal(Run::set_lpi_timer);
}

/// Writes the SMBus address to the PHY, which needs it while the system
/// sleeps. The semaphore has to be held.
pub fn write_smbus_addr(adapter: &mut Adapter) -> (res: AdResult)
    requires
        old(adapter).wf(),
    ensures
        final(adapter).wf(),
        (final(adapter)@, res) == old(adapter)@.copy_smbus_address(),
{
    reveal(Run::copy_smbus_address);
    let strap = adapter.read_register(E1000_STRAP);
    let freq: u32 = (strap & E1000_STRAP_SMT_FREQ_MASK) >> E1000_STRAP_SMT_FREQ_SHIFT;
    let addr: u32 = (strap & E1000_STRAP_SMBUS_ADDRESS_MASK) >> E1000_STRAP_SMBUS_ADDRESS_SHIFT;
    let mut phy_data: u16 = 0;
    if let Err(e) = adapter.fetch(Call::ReadPhyRegHvLocked(HV_SMB_ADDR, 0), &mut phy_data) {
        return Err(e);
    }
    phy_data = (phy_data & !HV_SMB_ADDR_MASK) | (addr as u16);
    phy_data = phy_data | (HV_SMB_ADDR_PEC_EN | HV_SMB_ADDR_VALID);
    if adapter.hw.phy.phy_type == PhyType::Type_i217 && freq > 0 {
        let f: u32 = freq - 1;
        phy_data = phy_data & !HV_SMB_ADDR_FREQ_MASK;
        phy_data = phy_data | (((f & 1) << HV_SMB_ADDR_FREQ_LOW_SHIFT) as u16);
        phy_data = phy_data | (((f & 2) << (HV_SMB_ADDR_FREQ_HIGH_SHIFT - 1)) as u16);
    }
    adapter.invoke(Call::WritePhyRegHvLocked(HV_SMB_ADDR, phy_data))
}

fn configure_smbus_and_led(adapter: &mut Adapter, extcnf_ctrl: u32) -> (res: AdResult)
    requires
        old(adapter).wf(),
    ensures
        final(adapter).wf(),
        (final(adapter)@, res) == old(adapter)@.configure_smbus_and_led(extcnf_ctrl),
{
    reveal(Run::configure_smbus_and_led);
    if (adapter.is_mac(MacType::Mac_pchlan) && extcnf_ctrl & E1000_EXTCNF_CTRL_OEM_WRITE_ENABLE
        == 0) || adapter.mac_since(MacType::Mac_pch2lan) {
        if let Err(e) = write_smbus_addr(adapter) {
            return Err(e);
        }
        let ledctl = adapter.read_register(E1000_LEDCTL);
        return adapter.invoke(Call::WritePhyRegHvLocked(HV_LED_CONFIG, ledctl as u16));
    }
    Ok(())
}

fn apply_config_entries(adapter: &mut Adapter, word_addr: u16, count: u16) -> (res: AdResult)
    requires
        old(adapter).wf(),
        word_addr <= 0x2000,
        count <= 0xFF,
    ensures
        final(adapter).wf(),
        (final(adapter)@, res) == old(adapter)@.apply_config_entries(
            word_addr as int,
            0,
            count as int,
            0,
            0,
            0,
        ),
{
    let mut phy_page: u16 = 0;
    let mut reg_data: u16 = 0;
    let mut reg_addr: u16 = 0;
    let mut i: u16 = 0;
    while i < count
        invariant
            adapter.wf(),
            i <= count,
            word_addr <= 0x2000,
            count <= 0xFF,
            adapter@.apply_config_entries(
                word_addr as int,
                i as int,
                count as int,
                phy_page,
                reg_data,
                reg_addr,
            ) == old(adapter)@.apply_config_entries(word_addr as int, 0, count as int, 0, 0, 0),
        decreases count - i,
    {
        if let Err(e) = adapter.nvm_read_word(word_addr + i * 2, &mut reg_data) {
            return Err(e);
        }
        if let Err(e) = adapter.nvm_read_word(word_addr + i * 2 + 1, &mut reg_addr) {
            return Err(e);
        }
        i = i + 1;
        if reg_addr == IGP01E1000_PHY_PAGE_SELECT {
            phy_page = reg_data;
            continue;
        }
        reg_addr = (reg_addr & PHY_REG_MASK) | phy_page;
        if let Err(e) = adapter.phy_write_reg_locked(reg_addr as u32, reg_data) {
            return Err(e);
        }
    }
    Ok(())
}

fn apply_extended_config(adapter: &mut Adapter, sw_config: u32) -> (res: AdResult)
    requires
        old(adapter).wf(),
    ensures
        final(adapter).wf(),
        (final(adapter)@, res) == old(adapter)@.apply_extended_config(sw_config),
{
    reveal(Run::apply_extended_config);
    if adapter.read_register(E1000_FEXTNVM) & sw_config == 0 {
        return Ok(());
    }
    // Hardware must not configure the PHY before software does.
    let extcnf = adapter.read_register(E1000_EXTCNF_CTRL);
    if !adapter.mac_since(MacType::Mac_pch2lan) && extcnf & E1000_EXTCNF_CTRL_LCD_WRITE_ENABLE
        != 0 {
        return Ok(());
    }
    let v = adapter.read_register(E1000_EXTCNF_SIZE);
    assert((v & 0x00FF_0000) >> 16 <= 0xFF && (extcnf & 0x0FFF_0000) >> 16 <= 0xFFF)
        by (bit_vector);
    let cnf_size: u32 = (v & E1000_EXTCNF_SIZE_EXT_PCIE_LENGTH_MASK)
        >> E1000_EXTCNF_SIZE_EXT_PCIE_LENGTH_SHIFT;
    if cnf_size == 0 {
        return Ok(());
    }
    let cnf_base_addr: u32 = (extcnf & E1000_EXTCNF_CTRL_EXT_CNF_POINTER_MASK)
        >> E1000_EXTCNF_CTRL_EXT_CNF_POINTER_SHIFT;
    if let Err(e) = configure_smbus_and_led(adapter, extcnf) {
        return Err(e);
    }
    // The base address is in doublewords.
    apply_config_entries(adapter, (cnf_base_addr * 2) as u16, cnf_size as u16)
}

/// Configures the PHY from the extended configuration region of the NVM, which
/// certain parts do not load properly after power transitions.
pub fn sw_lcd_config_ich8lan(adapter: &mut Adapter) -> (res: AdResult)
    requires
        old(adapter).wf(),
    ensures
        final(adapter).wf(),
        (final(adapter)@, res) == old(adapter)@.sw_lcd_config(),
{
    reveal(Run::sw_lcd_config);
    let sw_cfg_mask: u32 = match adapter.hw.mac.mac_type {
        MacType::Mac_ich8lan => {
            if adapter.hw.phy.phy_type != PhyType::Type_igp_3 {
                return Ok(());
            }
            if adapter.hw.device_id == E1000_DEV_ID_ICH8_IGP_AMT || adapter.hw.device_id
                == E1000_DEV_ID_ICH8_IGP_C {
                E1000_FEXTNVM_SW_CONFIG
            } else {
                E1000_FEXTNVM_SW_CONFIG_ICH8M
            }
        },
        MacType::Mac_pchlan
        | MacType::Mac_pch2lan
        | MacType::Mac_pch_cnp
        | MacType::Mac_pch_lpt
        | MacType::Mac_pch_spt => E1000_FEXTNVM_SW_CONFIG_ICH8M,
        _ => {
            return Ok(());
        },
    };
    if let Err(e) = adapter.phy_acquire() {
        return Err(e);
    }
    let res = apply_extended_config(adapter, sw_cfg_mask);
    adapter.release_and(res)
}

fn apply_oem_bits(adapter: &mut Adapter, d0_state: bool) -> (res: AdResult)
    requires
        old(adapter).wf(),
    ensures
        final(adapter).wf(),
        (final(adapter)@, res) == old(adapter)@.apply_oem_bits(d0_state),
{
    reveal(Run::apply_oem_bits);
    let mac_reg = adapter.read_register(E1000_PHY_CTRL);
    let mut oem_reg: u16 = 0;
    if let Err(e) = adapter.phy_read_reg_locked(HV_OEM_BITS, &mut oem_reg) {
        return Err(e);
    }
    oem_reg = oem_reg & !(HV_OEM_BITS_GBE_DIS | HV_OEM_BITS_LPLU);
    if d0_state {
        if mac_reg & E1000_PHY_CTRL_GBE_DISABLE != 0 {
            oem_reg = oem_reg | HV_OEM_BITS_GBE_DIS;
        }
        if mac_reg & E1000_PHY_CTRL_D0A_LPLU != 0 {
            oem_reg = oem_reg | HV_OEM_BITS_LPLU;
        }
    } else {
        if mac_reg & (E1000_PHY_CTRL_GBE_DISABLE | E1000_PHY_CTRL_NOND0A_GBE_DISABLE) != 0 {
            oem_reg = oem_reg | HV_OEM_BITS_GBE_DIS;
        }
        if mac_reg & (E1000_PHY_CTRL_D0A_LPLU | E1000_PHY_CTRL_NOND0A_LPLU) != 0 {
            oem_reg = oem_reg | HV_OEM_BITS_LPLU;
        }
    }
    if d0_state || !adapter.is_mac(MacType::Mac_pchlan) {
        match adapter.check_reset_block() {
            Ok(true) => {},
            Ok(false) => {
                oem_reg = oem_reg | HV_OEM_BITS_RESTART_AN;
            },
            Err(e) => {
                return Err(e);
            },
        }
    }
    adapter.phy_write_reg_locked(HV_OEM_BITS, oem_reg)
}

fn oem_bits_by_software(adapter: &mut Adapter) -> (res: bool)
    requires
        old(adapter).wf(),
    ensures
        final(adapter).wf(),
        (final(adapter)@, res) == old(adapter)@.oem_bits_by_software(),
{
    reveal(Run::oem_bits_by_software);
    proof {
        lemma_bits_32(0);
    }
    if adapter.is_mac(MacType::Mac_pchlan) {
        if adapter.read_register(E1000_EXTCNF_CTRL) & E1000_EXTCNF_CTRL_OEM_WRITE_ENABLE != 0 {
            return false;
        }
    }
    adapter.read_register(E1000_FEXTNVM) & E1000_FEXTNVM_SW_CONFIG_ICH8M != 0
}

/// Configures the OEM bits of the PHY, which disable gigabit speed and enable
/// low power link up, from the NVM, for device state D0 or D3.
pub fn oem_bits_config_ich8lan(adapter: &mut Adapter, d0_state: bool) -> (res: AdResult)
    requires
        old(adapter).wf(),
    ensures
        final(adapter).wf(),
        (final(adapter)@, res) == old(adapter)@.oem_bits_config(d0_state),
{
    reveal(Run::oem_bits_config);
    if !adapter.mac_since(MacType::Mac_pchlan) {
        return Ok(());
    }
    if let Err(e) = adapter.phy_acquire() {
        return Err(e);
    }
    if !oem_bits_by_software(adapter) {
        return adapter.phy_release();
    }
    let res = apply_oem_bits(adapter, d0_state);
    adapter.release_and(res)
}

/// The workarounds of the 82577 and 82578 after a reset; not implemented.
pub fn hv_phy_workarounds_ich8lan(adapter: &mut Adapter) -> (res: AdResult)
    requires
        old(adapter).wf(),
    ensures
        final(adapter).wf(),
        (final(adapter)@, res) == old(adapter)@.incomplete(Feature::HvPhyWorkaroundsIch8lan),
{
    adapter.incomplete(Feature::HvPhyWorkaroundsIch8lan)
}

/// The workarounds of the 82579, to be done after every reset.
pub fn lv_phy_workarounds_ich8lan(adapter: &mut Adapter) -> (res: AdResult)
    requires
        old(adapter).wf(),
    ensures
        final(adapter).wf(),
        (final(adapter)@, res) == old(adapter)@.lv_phy_workarounds(),
{
    reveal(Run::lv_phy_workarounds);
    if !adapter.is_mac(MacType::Mac_pch2lan) {
        return Ok(());
    }
    if let Err(e) = set_mdio_slow_mode_hv(adapter) {
        return Err(e);
    }
    if let Err(e) = adapter.phy_acquire() {
        return Err(e);
    }
    if write_emi_reg_locked(adapter, I82579_MSE_THRESHOLD, 0x0034).is_ok() {
        let res = write_emi_reg_locked(adapter, I82579_MSE_LINK_DOWN, 0x0005);
        return adapter.release_and(res);
    }
    adapter.release_and(Ok(()))
}

fn reset_workarounds(adapter: &mut Adapter) -> (res: AdResult)
    requires
        old(adapter).wf(),
    ensures
        final(adapter).wf(),
        (final(adapter)@, res) == old(adapter)@.reset_workarounds(),
{
    reveal(Run::reset_workarounds);
    if adapter.is_mac(MacType::Mac_pchlan) {
        if let Err(e) = hv_phy_workarounds_ich8lan(adapter) {
            return Err(e);
        }
    }
    if adapter.is_mac(MacType::Mac_pch2lan) {
        return lv_phy_workarounds_ich8lan(adapter);
    }
    Ok(())
}

fn clear_host_wakeup(adapter: &mut Adapter)
    requires
        old(adapter).wf(),
    ensures
        final(adapter).wf(),
        final(adapter)@ == old(adapter)@.clear_host_wakeup(),
{
    reveal(Run::clear_host_wakeup);
    if adapter.mac_since(MacType::Mac_pchlan) {
        let mut reg: u16 = 0;
        let _ = adapter.phy_read_reg(BM_PORT_GEN_CFG, &mut reg);
        let _ = adapter.phy_write_reg(BM_PORT_GEN_CFG, reg & !BM_WUC_HOST_WU_BIT);
    }
}

fn ungate_if_unmanaged(adapter: &mut Adapter)
    requires
        old(adapter).wf(),
    ensures
        final(adapter).wf(),
        final(adapter)@ == old(adapter)@.ungate_if_unmanaged(),
{
    reveal(Run::ungate_if_unmanaged);
    if adapter.is_mac(MacType::Mac_pch2lan) {
        if adapter.read_register(E1000_FWSM) & E1000_ICH_FWSM_FW_VALID == 0 {
            adapter.msec_delay(10);
            gate_hw_phy_config_ich8lan(adapter, false);
        }
    }
}

/// Gates PHY configuration by hardware on an 82579, if no firmware is found.
pub(crate) fn gate_if_unmanaged(adapter: &mut Adapter)
    requires
        old(adapter).wf(),
    ensures
        final(adapter).wf(),
        final(adapter)@ == old(adapter)@.gate_if_unmanaged(),
{
    reveal(Run::gate_if_unmanaged);
    if adapter.is_mac(MacType::Mac_pch2lan) {
        if adapter.read_register(E1000_FWSM) & E1000_ICH_FWSM_FW_VALID == 0 {
            gate_hw_phy_config_ich8lan(adapter, true);
        }
    }
}

fn set_lpi_timer(adapter: &mut Adapter) -> (res: AdResult)
    requires
        old(adapter).wf(),
    ensures
        final(adapter).wf(),
        (final(adapter)@, res) == old(adapter)@.set_lpi_timer(),
{
    reveal(Run::set_lpi_timer);
    if let Err(e) = adapter.phy_acquire() {
        return Err(e);
    }
    let res = write_emi_reg_locked(adapter, I82579_LPI_UPDATE_TIMER, 0x1387);
    adapter.release_and(res)
}

/// The steps that a PHY reset has to be followed by, unless the firmware
/// blocks resets.
pub fn post_phy_reset_ich8lan(adapter: &mut Adapter) -> (res: AdResult)
    requires
        old(adapter).wf(),
    ensures
        final(adapter).wf(),
        (final(adapter)@, res) == old(adapter)@.post_phy_reset(),
{
    reveal(Run::post_phy_reset);
    if let Ok(true) = adapter.check_reset_block() {
        return Ok(());
    }
    adapter.msec_delay(10);
    if let Err(e) = reset_workarounds(adapter) {
        return Err(e);
    }
    clear_host_wakeup(adapter);
    if let Err(e) = sw_lcd_config_ich8lan(adapter) {
        return Err(e);
    }
    let _ = oem_bits_config_ich8lan(adapter, true);
    ungate_if_unmanaged(adapter);
    set_lpi_timer(adapter)
}

/// Resets the PHY.
pub fn phy_hw_reset_ich8lan(adapter: &mut Adapter) -> (res: AdResult)
    requires
        old(adapter).wf(),
    ensures
        final(adapter).wf(),
        (final(adapter)@, res) == old(adapter)@.phy_hw_reset(),
{
    reveal(Run::phy_hw_reset);
    gate_if_unmanaged(adapter);
    if let Err(e) = adapter.invoke(Call::PhyHwResetGeneric) {
        return Err(e);
    }
    post_phy_reset_ich8lan(adapter)
}

fn clear_phy_reset_asserted(adapter: &mut Adapter)
    requires
        old(adapter).wf(),
    ensures
        final(adapter).wf(),
        final(adapter)@ == old(adapter)@.clear_phy_reset_asserted(),
{
    reveal(Run::clear_phy_reset_asserted);
    let status = adapter.read_register(E1000_STATUS);
    if status & E1000_STATUS_PHYRA != 0 {
        adapter.write_register(E1000_STATUS, status & !E1000_STATUS_PHYRA);
    }
}

fn require_configuration(adapter: &mut Adapter) -> (res: AdResult)
    requires
        old(adapter).wf(),
    ensures
        final(adapter).wf(),
        (final(adapter)@, res) == old(adapter)@.require_configuration(),
{
    reveal(Run::require_configuration);
    if adapter.mac_since(MacType::Mac_ich10lan) {
        let mut bank: u32 = 0;
        return valid_nvm_bank_detect_ich8lan(adapter, &mut bank);
    }
    if adapter.read_register(E1000_EECD) & E1000_EECD_PRES == 0 && adapter.hw.phy.phy_type
        == PhyType::Type_igp_3 {
        return adapter.incomplete(Feature::PhyInitScriptIgp3);
    }
    Ok(())
}

/// Waits after a reset until the configuration is done. That silicon without
/// an EEPROM cannot say so is no error, or it could not be reset.
pub fn get_cfg_done_ich8lan(adapter: &mut Adapter) -> (res: AdResult)
    requires
        old(adapter).wf(),
    ensures
        final(adapter).wf(),
        (final(adapter)@, res) == old(adapter)@.get_cfg_done(),
{
    reveal(Run::get_cfg_done);
    let _ = adapter.invoke(Call::GetCfgDoneGeneric);
    if adapter.mac_since(MacType::Mac_ich10lan) {
        lan_init_done_ich8lan(adapter);
    } else if adapter.invoke(Call::GetAutoRdDoneGeneric).is_err() {
        return Ok(());
    }
    clear_phy_reset_asserted(adapter);
    require_configuration(adapter)
}

/// Sets low power link up on PCH devices; not implemented.
pub fn set_lplu_state_pchlan(adapter: &mut Adapter, active: bool) -> (res: AdResult)
    requires
        old(adapter).wf(),
    ensures
        final(adapter).wf(),
        (final(adapter)@, res) == old(adapter)@.incomplete(Feature::SetLpluStatePchlan),
{
    adapter.incomplete(Feature::SetLpluStatePchlan)
}

/// Sets low power link up in device state D0 on ICH devices; not implemented.
pub fn set_d0_lplu_state_ich8lan(adapter: &mut Adapter, active: bool) -> (res: AdResult)
    requires
        old(adapter).wf(),
    ensures
        final(adapter).wf(),
        (final(adapter)@, res) == old(adapter)@.incomplete(Feature::SetD0LpluStateIch8lan),
{
    adapter.incomplete(Feature::SetD0LpluStateIch8lan)
}

/// Sets low power link up in device state D3 on ICH devices; not implemented.
pub fn set_d3_lplu_state_ich8lan(adapter: &mut Adapter, active: bool) -> (res: AdResult)
    requires
        old(adapter).wf(),
    ensures
        final(adapter).wf(),
        (final(adapter)@, res) == old(adapter)@.incomplete(Feature::SetD3LpluStateIch8lan),
{
    adapter.incomplete(Feature::SetD3LpluStateIch8lan)
}

/// Removes the link before the PHY is powered down; not implemented, so
/// nothing is done.
pub fn power_down_phy_copper_ich8lan(adapter: &mut Adapter)
    requires
        old(adapter).wf(),
    ensures
        final(adapter).wf(),
        final(adapter)@ == old(adapter)@,
{
}

} // verus!
