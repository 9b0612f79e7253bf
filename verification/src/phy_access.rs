//! Gaining access to the PHY when the driver loads.

use vstd::prelude::*;
use crate::consts::{
    AUTONEG_ADVERTISE_SPEED_DEFAULT, CV_SMB_CTRL, CV_SMB_CTRL_FORCE_SMBUS, E1000_CTRL_EXT,
    E1000_CTRL_EXT_FORCE_SMBUS, E1000_FWSM, E1000_ICH_FWSM_FW_VALID, PHY_ID1, PHY_ID2,
    PHY_REVISION_MASK,
};
use crate::error::{AdResult, Error};
use crate::hw::{Func, Hw, MacType, PhyInfo, PhyOps, PhyType, UlpState};
use crate::io::{Adapter, Call, Feature, Run};
use crate::lanphypc::toggle_lanphypc_pch_lpt;
use crate::swflag::gate_hw_phy_config_ich8lan;
use crate::ulp::{disable_ulp_lpt_lp, set_ulp_state};

verus! {

/// The PHY identifier that the two identifier registers make up, without the
/// revision.
pub open spec fn phy_id(high: u16, low: u16) -> u32 {
    ((high as u32) << 16) | (low as u32 & PHY_REVISION_MASK)
}

/// The identifier does not depend on the revision, which is in the last four
/// bits of the second register.
pub proof fn law_phy_id_without_revision(high: u16, low: u16, other: u16)
    requires
        low >> 4 == other >> 4,
    ensures
        phy_id(high, low) == phy_id(high, other),
        phy_id(high, low) & 0xF == 0,
        low as u32 & !PHY_REVISION_MASK == low as u32 & 0xF,
{
    assert({
        &&& ((high as u32) << 16) | (low as u32 & 0xFFFF_FFF0) == ((high as u32) << 16) | (
        other as u32 & 0xFFFF_FFF0)
        &&& (((high as u32) << 16) | (low as u32 & 0xFFFF_FFF0)) & 0xF == 0
        &&& low as u32 & !0xFFFF_FFF0 == low as u32 & 0xF
    }) by (bit_vector)
        requires
            low >> 4 == other >> 4,
    ;
}

impl Run {
    /// Tries to read the PHY identifier; a register of all ones is not there.
    /// The third value is what was read last, where `reg` came before.
    #[verifier::opaque]
    pub open spec fn read_phy_id(self, reg: u16) -> (Run, Option<u32>, u16) {
        let (s, r, high) = self.phy_read_reg_locked(PHY_ID1, reg);
        if r is Err || high == 0xFFFF {
            (s, None, high)
        } else {
            let (s, r, low) = s.phy_read_reg_locked(PHY_ID2, high);
            if r is Err || low == 0xFFFF {
                (s, None, low)
            } else {
                (s, Some(phy_id(high, low)), low)
            }
        }
    }

    /// Tries twice; an identifier that cannot be read counts as 0.
    #[verifier::opaque]
    pub open spec fn probe_phy_id(self) -> (Run, u32, u16) {
        let (s, id, reg) = self.read_phy_id(0);
        match id {
            Some(id) => (s, id, reg),
            None => {
                let (s, id, reg) = s.read_phy_id(reg);
                match id {
                    Some(id) => (s, id, reg),
                    None => (s, 0, reg),
                }
            },
        }
    }

    /// The run with the PHY identified.
    #[verifier::opaque]
    pub open spec fn with_phy_id(self, id: u32, revision: u32) -> Run {
        self.with_hw(Hw { phy: PhyInfo { id, revision, ..self.hw.phy }, ..self.hw })
    }

    /// Puts access to the PHY in slow mode, which is not implemented, and has
    /// the identifier read.
    #[verifier::opaque]
    pub open spec fn read_phy_id_slowly(self) -> (Run, AdResult) {
        let (s, r) = self.incomplete(Feature::SetMdioSlowModeHv);
        if r is Err {
            (s, r)
        } else {
            s.invoke(Call::GetPhyId)
        }
    }

    /// Compares the identifier with the one known before, or takes it over if
    /// none was known and this one is not 0. Where that fails, the PHY is not
    /// accessible on Lynx Point and later; earlier families have the
    /// identifier read again without the semaphore, and the PHY is accessible
    /// if that works.
    #[verifier::opaque]
    pub open spec fn confirm_phy_id(self, id: u32, reg: u16) -> (Run, Result<bool, Error>) {
        if self.hw.phy.id != 0 && self.hw.phy.id == id {
            (self, Ok(true))
        } else if self.hw.phy.id == 0 && id != 0 {
            (self.with_phy_id(id, reg as u32 & !PHY_REVISION_MASK), Ok(true))
        } else if self.since(MacType::Mac_pch_lpt) {
            (self, Ok(false))
        } else {
            let (s, r) = self.phy_release();
            match r {
                Err(e) => (s, Err(e)),
                Ok(_) => {
                    let (s, found) = s.read_phy_id_slowly();
                    let (s, r) = s.phy_acquire();
                    match r {
                        Err(e) => (s, Err(e)),
                        Ok(_) => (s, Ok(found is Ok)),
                    }
                },
            }
        }
    }

    /// Takes PHY and MAC out of SMBus mode, where no firmware minds it. `reg`
    /// is what the last register read held.
    #[verifier::opaque]
    pub open spec fn unforce_smbus(self, reg: u16) -> Run {
        if !self.since(MacType::Mac_pch_lpt) {
            self
        } else {
            let (s, fwsm) = self.read_register(E1000_FWSM);
            if fwsm & E1000_ICH_FWSM_FW_VALID != 0 {
                s
            } else {
                let (s, _, ctrl) = s.phy_read_reg_locked(CV_SMB_CTRL, reg);
                let (s, _) = s.phy_write_reg_locked(CV_SMB_CTRL, ctrl & !CV_SMB_CTRL_FORCE_SMBUS);
                s.clear_register_bit(E1000_CTRL_EXT, E1000_CTRL_EXT_FORCE_SMBUS)
            }
        }
    }

    #[verifier::opaque]
    pub open spec fn phy_accessible(self) -> (Run, Result<bool, Error>) {
        let (s, id, reg) = self.probe_phy_id();
        let (s, confirmed) = s.confirm_phy_id(id, reg);
        match confirmed {
            Ok(true) => (s.unforce_smbus(reg), Ok(true)),
            _ => (s, confirmed),
        }
    }

    /// Whether the PHY is accessible; errors count as that it is not.
    #[verifier::opaque]
    pub open spec fn phy_reached(self) -> (Run, bool) {
        let (s, b) = self.phy_accessible();
        (s, b matches Ok(true))
    }

    /// Whether the MAC is from Lynx Point, Sunrise Point or Cannon Point.
    pub open spec fn lynx_to_cannon(self) -> bool {
        self.is_mac(MacType::Mac_pch_lpt) || self.is_mac(MacType::Mac_pch_spt) || self.is_mac(
            MacType::Mac_pch_cnp,
        )
    }

    /// Makes the PHY accessible: by looking, on the latest families; with the
    /// MAC forced to SMBus mode; last by a power cycle. The result says whether
    /// the PHY remains out of reach.
    #[verifier::opaque]
    pub open spec fn reach_phy(self, fwsm: u32) -> (Run, Result<bool, Error>) {
        if self.lynx_to_cannon() {
            let (s, reached) = self.phy_reached();
            if reached {
                (s, Ok(false))
            } else {
                s.set_register_bit(E1000_CTRL_EXT, E1000_CTRL_EXT_FORCE_SMBUS).msec_delay(
                    50,
                ).reach_phy_as_is(fwsm)
            }
        } else {
            self.reach_phy_as_is(fwsm)
        }
    }

    #[verifier::opaque]
    pub open spec fn reach_phy_as_is(self, fwsm: u32) -> (Run, Result<bool, Error>) {
        if self.lynx_to_cannon() || self.is_mac(MacType::Mac_pch2lan) {
            let (s, reached) = self.phy_reached();
            if reached {
                (s, Ok(false))
            } else {
                s.reach_phy_by_power_cycle(fwsm)
            }
        } else {
            self.reach_phy_by_power_cycle(fwsm)
        }
    }

    #[verifier::opaque]
    pub open spec fn reach_phy_by_power_cycle(self, fwsm: u32) -> (Run, Result<bool, Error>) {
        let pchlan = self.is_mac(MacType::Mac_pchlan);
        if !(self.lynx_to_cannon() || self.is_mac(MacType::Mac_pch2lan) || pchlan) {
            (self, Ok(false))
        } else if pchlan && fwsm & E1000_ICH_FWSM_FW_VALID != 0 {
            (self, Ok(false))
        } else {
            let (s, blocked) = self.check_reset_block();
            match blocked {
                Ok(false) => s.toggle_lanphypc().reach_phy_after_power_cycle(),
                _ => (s, blocked),
            }
        }
    }

    #[verifier::opaque]
    pub open spec fn reach_phy_after_power_cycle(self) -> (Run, Result<bool, Error>) {
        if !self.since(MacType::Mac_pch_lpt) {
            (self, Ok(false))
        } else {
            let (s, reached) = self.phy_reached();
            if reached {
                (s, Ok(false))
            } else {
                let s = s.clear_register_bit(E1000_CTRL_EXT, E1000_CTRL_EXT_FORCE_SMBUS);
                let (s, reached) = s.phy_reached();
                (s, Ok(!reached))
            }
        }
    }

    /// Ungates PHY configuration by hardware on an 82579 without firmware.
    #[verifier::opaque]
    pub open spec fn ungate_unmanaged(self, fwsm: u32) -> Run {
        if self.is_mac(MacType::Mac_pch2lan) && fwsm & E1000_ICH_FWSM_FW_VALID == 0 {
            self.msec_delay(10).gate_phy_config(false)
        } else {
            self
        }
    }

    /// Goes on only if the firmware does not block resets of the PHY.
    #[verifier::opaque]
    pub open spec fn require_unblocked(self, fwsm: u32) -> (Run, AdResult) {
        let (s, blocked) = self.check_reset_block();
        match blocked {
            Ok(true) => (s.ungate_unmanaged(fwsm), Err(Error::ResetBlocked)),
            Ok(false) => (s, Ok(())),
            Err(e) => (s, Err(e)),
        }
    }

    /// Resets the PHY, so that it is in a known state before anything else is
    /// done to it, and waits until the firmware lets it be accessed.
    #[verifier::opaque]
    pub open spec fn reset_reached_phy(self, fwsm: u32) -> (Run, AdResult) {
        let (s, r) = self.require_unblocked(fwsm);
        if r is Err {
            (s, r)
        } else {
            let (s, r) = s.invoke(Call::PhyHwResetGeneric);
            if r is Err {
                (s.ungate_unmanaged(fwsm), r)
            } else {
                let (s, r) = s.require_unblocked(fwsm);
                if r is Err {
                    (s, r)
                } else {
                    (s.ungate_unmanaged(fwsm), Ok(()))
                }
            }
        }
    }

    /// Makes the PHY accessible and resets it. An error of asking whether the
    /// firmware blocks the power cycle leaves the semaphore held.
    #[verifier::opaque]
    pub open spec fn init_phy_workarounds(self) -> (Run, AdResult) {
        let (s, fwsm) = self.read_register(E1000_FWSM);
        let s = s.gate_phy_config(true).with_ulp_state(UlpState::Unknown);
        let (s, _) = s.disable_ulp(true);
        let (s, r) = s.phy_acquire();
        if r is Err {
            (s, r)
        } else {
            let (s, unreached) = s.reach_phy(fwsm);
            match unreached {
                Err(e) => (s, Err(e)),
                Ok(unreached) => {
                    let (s, r) = s.phy_release();
                    if r is Err {
                        (s, r)
                    } else if unreached {
                        (s.ungate_unmanaged(fwsm), Err(Error::PhyError))
                    } else {
                        s.reset_reached_phy(fwsm)
                    }
                },
            }
        }
    }
}

/// Puts access to the PHY in slow mode; not implemented.
pub fn set_mdio_slow_mode_hv(adapter: &mut Adapter) -> (res: AdResult)
    requires
        old(adapter).wf(),
    ensures
        final(adapter).wf(),
        (final(adapter)@, res) == old(adapter)@.incomplete(Feature::SetMdioSlowModeHv),
{
    adapter.incomplete(Feature::SetMdioSlowModeHv)
}

fn read_phy_id(adapter: &mut Adapter, reg: &mut u16) -> (id: Option<u32>)
    requires
        old(adapter).wf(),
    ensures
        final(adapter).wf(),
        (final(adapter)@, id, *final(reg)) == old(adapter)@.read_phy_id(*old(reg)),
{
    reveal(Run::read_phy_id);
    if adapter.phy_read_reg_locked(PHY_ID1, reg).is_err() || *reg == 0xFFFF {
        return None;
    }
    let high: u32 = (*reg as u32) << 16;
    if adapter.phy_read_reg_locked(PHY_ID2, reg).is_err() || *reg == 0xFFFF {
        return None;
    }
    Some(high | (*reg as u32 & PHY_REVISION_MASK))
}

fn probe_phy_id(adapter: &mut Adapter, reg: &mut u16) -> (id: u32)
    requires
        old(adapter).wf(),
    ensures
        final(adapter).wf(),
        (final(adapter)@, id, *final(reg)) == old(adapter)@.probe_phy_id(),
{
    reveal(Run::probe_phy_id);
    *reg = 0;
    if let Some(id) = read_phy_id(adapter, reg) {
        return id;
    }
    match read_phy_id(adapter, reg) {
        Some(id) => id,
        None => 0,
    }
}

fn set_phy_id(adapter: &mut Adapter, id: u32, revision: u32)
    requires
        old(adapter).wf(),
    ensures
        final(adapter).wf(),
        final(adapter)@ == old(adapter)@.with_phy_id(id, revision),
{
    reveal(Run::with_phy_id);
    adapter.hw.phy.id = id;
    adapter.hw.phy.revision = revision;
}

fn read_phy_id_slowly(adapter: &mut Adapter) -> (res: AdResult)
    requires
        old(adapter).wf(),
    ensures
        final(adapter).wf(),
        (final(adapter)@, res) == old(adapter)@.read_phy_id_slowly(),
{
    reveal(Run::read_phy_id_slowly);
    if let Err(e) = set_mdio_slow_mode_hv(adapter) {
        return Err(e);
    }
    adapter.invoke(Call::GetPhyId)
}

fn confirm_phy_id(adapter: &mut Adapter, id: u32, reg: u16) -> (res: Result<bool, Error>)
    requires
        old(adapter).wf(),
    ensures
        final(adapter).wf(),
        (final(adapter)@, res) == old(adapter)@.confirm_phy_id(id, reg),
{
    reveal(Run::confirm_phy_id);
    if adapter.hw.phy.id != 0 {
        if adapter.hw.phy.id == id {
            return Ok(true);
        }
    } else if id != 0 {
        set_phy_id(adapter, id, reg as u32 & !PHY_REVISION_MASK);
        return Ok(true);
    }
    if adapter.mac_since(MacType::Mac_pch_lpt) {
        return Ok(false);
    }
    if let Err(e) = adapter.phy_release() {
        return Err(e);
    }
    let found = read_phy_id_slowly(adapter);
    if let Err(e) = adapter.phy_acquire() {
        return Err(e);
    }
    Ok(found.is_ok())
}

fn unforce_smbus(adapter: &mut Adapter, reg: u16)
    requires
        old(adapter).wf(),
    ensures
        final(adapter).wf(),
        final(adapter)@ == old(adapter)@.unforce_smbus(reg),
{
    reveal(Run::unforce_smbus);
    if !adapter.mac_since(MacType::Mac_pch_lpt) {
        return;
    }
    if adapter.read_register(E1000_FWSM) & E1000_ICH_FWSM_FW_VALID == 0 {
        let mut phy_reg: u16 = reg;
        let _ = adapter.phy_read_reg_locked(CV_SMB_CTRL, &mut phy_reg);
        let _ = adapter.phy_write_reg_locked(CV_SMB_CTRL, phy_reg & !CV_SMB_CTRL_FORCE_SMBUS);
        adapter.clear_register_bit(E1000_CTRL_EXT, E1000_CTRL_EXT_FORCE_SMBUS);
    }
}

/// Checks whether the PHY registers can be accessed, by reading the PHY
/// identifier. One that is known already is compared with it, else a valid
/// one is taken over. The semaphore has to be held.
pub fn phy_is_accessible_pchlan(adapter: &mut Adapter) -> (res: Result<bool, Error>)
    requires
        old(adapter).wf(),
    ensures
        final(adapter).wf(),
        (final(adapter)@, res) == old(adapter)@.phy_accessible(),
{
    reveal(Run::phy_accessible);
    let mut phy_reg: u16 = 0;
    let id = probe_phy_id(adapter, &mut phy_reg);
    let confirmed = confirm_phy_id(adapter, id, phy_reg);
    if let Ok(true) = confirmed {
        unforce_smbus(adapter, phy_reg);
        return Ok(true);
    }
    confirmed
}

fn phy_reached(adapter: &mut Adapter) -> (reached: bool)
    requires
        old(adapter).wf(),
    ensures
        final(adapter).wf(),
        (final(adapter)@, reached) == old(adapter)@.phy_reached(),
{
    reveal(Run::phy_reached);
    match phy_is_accessible_pchlan(adapter) {
        Ok(b) => b,
        Err(_) => false,
    }
}

fn lynx_to_cannon(adapter: &Adapter) -> (res: bool)
    ensures
        res == adapter@.lynx_to_cannon(),
{
    adapter.is_mac(MacType::Mac_pch_lpt) || adapter.is_mac(MacType::Mac_pch_spt) || adapter.is_mac(
        MacType::Mac_pch_cnp,
    )
}

fn reach_phy_after_power_cycle(adapter: &mut Adapter) -> (res: Result<bool, Error>)
    requires
        old(adapter).wf(),
    ensures
        final(adapter).wf(),
        (final(adapter)@, res) == old(adapter)@.reach_phy_after_power_cycle(),
{
    reveal(Run::reach_phy_after_power_cycle);
    if !adapter.mac_since(MacType::Mac_pch_lpt) {
        return Ok(false);
    }
    if phy_reached(adapter) {
        return Ok(false);
    }
    adapter.clear_register_bit(E1000_CTRL_EXT, E1000_CTRL_EXT_FORCE_SMBUS);
    let reached = phy_reached(adapter);
    Ok(!reached)
}

fn reach_phy_by_power_cycle(adapter: &mut Adapter, fwsm: u32) -> (res: Result<bool, Error>)
    requires
        old(adapter).wf(),
    ensures
        final(adapter).wf(),
        (final(adapter)@, res) == old(adapter)@.reach_phy_by_power_cycle(fwsm),
{
    reveal(Run::reach_phy_by_power_cycle);
    let pchlan = adapter.is_mac(MacType::Mac_pchlan);
    if !(lynx_to_cannon(adapter) || adapter.is_mac(MacType::Mac_pch2lan) || pchlan) {
        return Ok(false);
    }
    if pchlan && fwsm & E1000_ICH_FWSM_FW_VALID != 0 {
        return Ok(false);
    }
    let blocked = adapter.check_reset_block();
    if let Ok(false) = blocked {
        toggle_lanphypc_pch_lpt(adapter);
        return reach_phy_after_power_cycle(adapter);
    }
    blocked
}

fn reach_phy_as_is(adapter: &mut Adapter, fwsm: u32) -> (res: Result<bool, Error>)
    requires
        old(adapter).wf(),
    ensures
        final(adapter).wf(),
        (final(adapter)@, res) == old(adapter)@.reach_phy_as_is(fwsm),
{
    reveal(Run::reach_phy_as_is);
    if lynx_to_cannon(adapter) || adapter.is_mac(MacType::Mac_pch2lan) {
        if phy_reached(adapter) {
            return Ok(false);
        }
    }
    reach_phy_by_power_cycle(adapter, fwsm)
}

fn reach_phy(adapter: &mut Adapter, fwsm: u32) -> (res: Result<bool, Error>)
    requires
        old(adapter).wf(),
    ensures
        final(adapter).wf(),
        (final(adapter)@, res) == old(adapter)@.reach_phy(fwsm),
{
    reveal(Run::reach_phy);
    if lynx_to_cannon(adapter) {
        if phy_reached(adapter) {
            return Ok(false);
        }
        adapter.set_register_bit(E1000_CTRL_EXT, E1000_CTRL_EXT_FORCE_SMBUS);
        adapter.msec_delay(50);
    }
    reach_phy_as_is(adapter, fwsm)
}

fn ungate_unmanaged(adapter: &mut Adapter, fwsm: u32)
    requires
        old(adapter).wf(),
    ensures
        final(adapter).wf(),
        final(adapter)@ == old(adapter)@.ungate_unmanaged(fwsm),
{
    reveal(Run::ungate_unmanaged);
    if adapter.is_mac(MacType::Mac_pch2lan) && fwsm & E1000_ICH_FWSM_FW_VALID == 0 {
        adapter.msec_delay(10);
        gate_hw_phy_config_ich8lan(adapter, false);
    }
}

fn require_unblocked(adapter: &mut Adapter, fwsm: u32) -> (res: AdResult)
    requires
        old(adapter).wf(),
    ensures
        final(adapter).wf(),
        (final(adapter)@, res) == old(adapter)@.require_unblocked(fwsm),
{
    reveal(Run::require_unblocked);
    match adapter.check_reset_block() {
        Ok(true) => {
            ungate_unmanaged(adapter, fwsm);
            Err(Error::ResetBlocked)
        },
        Ok(false) => Ok(()),
        Err(e) => Err(e),
    }
}

fn reset_reached_phy(adapter: &mut Adapter, fwsm: u32) -> (res: AdResult)
    requires
        old(adapter).wf(),
    ensures
        final(adapter).wf(),
        (final(adapter)@, res) == old(adapter)@.reset_reached_phy(fwsm),
{
    reveal(Run::reset_reached_phy);
    if let Err(e) = require_unblocked(adapter, fwsm) {
        return Err(e);
    }
    let res = adapter.invoke(Call::PhyHwResetGeneric);
    if res.is_err() {
        ungate_unmanaged(adapter, fwsm);
        return res;
    }
    if let Err(e) = require_unblocked(adapter, fwsm) {
        return Err(e);
    }
    ungate_unmanaged(adapter, fwsm);
    Ok(())
}

/// The workarounds that the PHY needs when the driver loads or resumes: leaves
/// ultra low power mode, makes the PHY accessible and resets it, with PHY
/// configuration by hardware gated meanwhile.
pub fn init_phy_workarounds_pchlan(adapter: &mut Adapter) -> (res: AdResult)
    requires
        old(adapter).wf(),
    ensures
        final(adapter).wf(),
        (final(adapter)@, res) == old(adapter)@.init_phy_workarounds(),
{
    reveal(Run::init_phy_workarounds);
    let fwsm = adapter.read_register(E1000_FWSM);
    gate_hw_phy_config_ich8lan(adapter, true);
    // What state the mode is in is not known at this point.
    set_ulp_state(adapter, UlpState::Unknown);
    let _ = disable_ulp_lpt_lp(adapter, true);
    if let Err(e) = adapter.phy_acquire() {
        return Err(e);
    }
    match reach_phy(adapter, fwsm) {
        Err(e) => Err(e),
        Ok(unreached) => {
            if let Err(e) = adapter.phy_release() {
                return Err(e);
            }
            if unreached {
                ungate_unmanaged(adapter, fwsm);
                return Err(Error::PhyError);
            }
            reset_reached_phy(adapter, fwsm)
        },
    }
}

impl Hw {
    /// The state once the PHY operations of PCH devices are in place; the PHY
    /// is not identified then.
    pub open spec fn with_pch_phy_ops(self) -> Hw {
        Hw {
            phy: PhyInfo {
                addr: 1,
                reset_delay_us: 100,
                autoneg_mask: AUTONEG_ADVERTISE_SPEED_DEFAULT,
                id: 0,
                ops: PhyOps {
                    acquire: Some(Func::AcquireSwflagIch8lan),
                    check_reset_block: Some(Func::CheckResetBlockIch8lan),
                    get_cfg_done: Some(Func::GetCfgDoneIch8lan),
                    set_page: Some(Func::SetPageIgp),
                    read_reg: Some(Func::ReadPhyRegHv),
                    read_reg_locked: Some(Func::ReadPhyRegHvLocked),
                    read_reg_page: Some(Func::ReadPhyRegPageHv),
                    release: Some(Func::ReleaseSwflagIch8lan),
                    reset: Some(Func::PhyHwResetIch8lan),
                    set_d0_lplu_state: Some(Func::SetLpluStatePchlan),
                    set_d3_lplu_state: Some(Func::SetLpluStatePchlan),
                    write_reg: Some(Func::WritePhyRegHv),
                    write_reg_locked: Some(Func::WritePhyRegHvLocked),
                    write_reg_page: Some(Func::WritePhyRegPageHv),
                    power_up: Some(Func::PowerUpPhyCopper),
                    power_down: Some(Func::PowerDownPhyCopperIch8lan),
                    ..self.phy.ops
                },
                ..self.phy
            },
            ..self
        }
    }

    /// The state once the PHY family is known: the operations that depend on
    /// it are in place, if the family is one that PCH devices come with.
    pub open spec fn with_phy_type(self, phy_type: PhyType) -> Hw {
        Hw {
            phy: PhyInfo {
                phy_type,
                ops: if phy_type == PhyType::Type_82578 {
                    PhyOps {
                        check_polarity: Some(Func::CheckPolarityM88),
                        force_speed_duplex: Some(Func::PhyForceSpeedDuplexM88),
                        get_cable_length: Some(Func::GetCableLengthM88),
                        get_info: Some(Func::GetPhyInfoM88),
                        ..self.phy.ops
                    }
                } else if phy_type.pch() {
                    PhyOps {
                        check_polarity: Some(Func::CheckPolarity82577),
                        force_speed_duplex: Some(Func::PhyForceSpeedDuplex82577),
                        get_cable_length: Some(Func::GetCableLength82577),
                        get_info: Some(Func::GetPhyInfo82577),
                        commit: Some(Func::PhySwResetGeneric),
                        ..self.phy.ops
                    }
                } else {
                    self.phy.ops
                },
                ..self.phy
            },
            ..self
        }
    }
}

impl Run {
    /// Reads the PHY identifier if it is not known; from the 82579 on a second
    /// time, in slow mode, if the first gives none.
    #[verifier::opaque]
    pub open spec fn identify_phy(self) -> (Run, AdResult) {
        if self.hw.phy.id != 0 {
            (self, Ok(()))
        } else {
            let (s, r) = self.invoke(Call::GetPhyId);
            if r is Err {
                (s, r)
            } else if s.hw.phy.id != 0 && s.hw.phy.id != PHY_REVISION_MASK {
                (s, Ok(()))
            } else if s.lynx_to_cannon() || s.is_mac(MacType::Mac_pch2lan) {
                s.read_phy_id_slowly()
            } else {
                (s, Ok(()))
            }
        }
    }

    #[verifier::opaque]
    pub open spec fn init_phy_params(self) -> (Run, AdResult) {
        let (s, r) = self.with_hw(self.hw.with_pch_phy_ops()).init_phy_workarounds();
        if r is Err {
            (s, r)
        } else {
            let (s, r) = s.identify_phy();
            if r is Err {
                (s, r)
            } else {
                let (s, phy_type) = s.phy_type_from_id(s.hw.phy.id);
                (
                    s.with_hw(s.hw.with_phy_type(phy_type)),
                    if phy_type.pch() {
                        Ok(())
                    } else {
                        Err(Error::UnknownPhyType)
                    },
                )
            }
        }
    }
}

/// The PHY parameters are initialized only if the PHY is of a family that PCH
/// devices come with.
pub proof fn law_phy_family_known(run: Run)
    requires
        run.init_phy_params().1 is Ok,
    ensures
        run.init_phy_params().0.hw.phy.phy_type.pch(),
        run.init_phy_params().0.hw.phy.ops.get_info is Some,
{
    reveal(Run::init_phy_params);
}

/// From Lynx Point on, a PHY whose identifier cannot be read in two tries, or
/// differs from the one known, is not accessible: nothing is done beyond
/// reading it, and no identifier is taken over.
pub proof fn law_phy_out_of_reach(run: Run)
    ensures
        ({
            let (first, id1, reg1) = run.read_phy_id(0);
            let (second, id2, _) = first.read_phy_id(reg1);
            &&& id1 is None && id2 is None && second.since(MacType::Mac_pch_lpt)
                ==> run.phy_accessible() == (second, Ok::<bool, Error>(false))
        }),
        ({
            let (s, id, _) = run.probe_phy_id();
            &&& s.since(MacType::Mac_pch_lpt) && s.hw.phy.id != 0 && s.hw.phy.id != id
                ==> run.phy_accessible() == (s, Ok::<bool, Error>(false))
        }),
{
    reveal(Run::probe_phy_id);
    reveal(Run::phy_accessible);
    reveal(Run::confirm_phy_id);
}

/// An identifier register that reads as all ones, or cannot be read, gives no
/// identifier.
pub proof fn law_invalid_phy_id(run: Run, reg: u16)
    ensures
        ({
            let (_, r, high) = run.phy_read_reg_locked(PHY_ID1, reg);
            r is Err || high == 0xFFFF ==> run.read_phy_id(reg).1 is None
        }),
{
    reveal(Run::read_phy_id);
}

/// An identifier that is known already is not changed by looking for one; one
/// that is not known is learned if it can be read.
pub proof fn law_phy_id_learned(run: Run, id: u32, reg: u16)
    ensures
        run.hw.phy.id != 0 && run.hw.phy.id == id ==> run.confirm_phy_id(id, reg) == (
            run,
            Ok::<bool, Error>(true),
        ),
        run.hw.phy.id == 0 && id != 0 ==> {
            let (s, found) = run.confirm_phy_id(id, reg);
            &&& found == Ok::<bool, Error>(true)
            &&& s.hw.phy.id == id
            &&& s.hw.phy.revision == reg as u32 & !PHY_REVISION_MASK
            &&& s.trace == run.trace
        },
{
    reveal(Run::confirm_phy_id);
    reveal(Run::with_phy_id);
}

fn set_pch_phy_ops(adapter: &mut Adapter)
    requires
        old(adapter).wf(),
    ensures
        final(adapter).wf(),
        final(adapter)@ == old(adapter)@.with_hw(old(adapter).hw.with_pch_phy_ops()),
{
    adapter.hw.phy.addr = 1;
    adapter.hw.phy.reset_delay_us = 100;
    adapter.hw.phy.ops.acquire = Some(Func::AcquireSwflagIch8lan);
    adapter.hw.phy.ops.check_reset_block = Some(Func::CheckResetBlockIch8lan);
    adapter.hw.phy.ops.get_cfg_done = Some(Func::GetCfgDoneIch8lan);
    adapter.hw.phy.ops.set_page = Some(Func::SetPageIgp);
    adapter.hw.phy.ops.read_reg = Some(Func::ReadPhyRegHv);
    adapter.hw.phy.ops.read_reg_locked = Some(Func::ReadPhyRegHvLocked);
    adapter.hw.phy.ops.read_reg_page = Some(Func::ReadPhyRegPageHv);
    adapter.hw.phy.ops.release = Some(Func::ReleaseSwflagIch8lan);
    adapter.hw.phy.ops.reset = Some(Func::PhyHwResetIch8lan);
    adapter.hw.phy.ops.set_d0_lplu_state = Some(Func::SetLpluStatePchlan);
    adapter.hw.phy.ops.set_d3_lplu_state = Some(Func::SetLpluStatePchlan);
    adapter.hw.phy.ops.write_reg = Some(Func::WritePhyRegHv);
    adapter.hw.phy.ops.write_reg_locked = Some(Func::WritePhyRegHvLocked);
    adapter.hw.phy.ops.write_reg_page = Some(Func::WritePhyRegPageHv);
    adapter.hw.phy.ops.power_up = Some(Func::PowerUpPhyCopper);
    adapter.hw.phy.ops.power_down = Some(Func::PowerDownPhyCopperIch8lan);
    adapter.hw.phy.autoneg_mask = AUTONEG_ADVERTISE_SPEED_DEFAULT;
    adapter.hw.phy.id = 0;
}

fn identify_phy(adapter: &mut Adapter) -> (res: AdResult)
    requires
        old(adapter).wf(),
    ensures
        final(adapter).wf(),
        (final(adapter)@, res) == old(adapter)@.identify_phy(),
{
    reveal(Run::identify_phy);
    if adapter.hw.phy.id == 0 {
        if let Err(e) = adapter.invoke(Call::GetPhyId) {
            return Err(e);
        }
        if adapter.hw.phy.id != 0 && adapter.hw.phy.id != PHY_REVISION_MASK {
            return Ok(());
        }
        if lynx_to_cannon(adapter) || adapter.is_mac(MacType::Mac_pch2lan) {
            return read_phy_id_slowly(adapter);
        }
    }
    Ok(())
}

fn set_phy_type(adapter: &mut Adapter, phy_type: PhyType)
    requires
        old(adapter).wf(),
    ensures
        final(adapter).wf(),
        final(adapter)@ == old(adapter)@.with_hw(old(adapter).hw.with_phy_type(phy_type)),
{
    adapter.hw.phy.phy_type = phy_type;
    match phy_type {
        PhyType::Type_82577 | PhyType::Type_82579 | PhyType::Type_i217 => {
            adapter.hw.phy.ops.check_polarity = Some(Func::CheckPolarity82577);
            adapter.hw.phy.ops.force_speed_duplex = Some(Func::PhyForceSpeedDuplex82577);
            adapter.hw.phy.ops.get_cable_length = Some(Func::GetCableLength82577);
            adapter.hw.phy.ops.get_info = Some(Func::GetPhyInfo82577);
            adapter.hw.phy.ops.commit = Some(Func::PhySwResetGeneric);
        },
        PhyType::Type_82578 => {
            adapter.hw.phy.ops.check_polarity = Some(Func::CheckPolarityM88);
            adapter.hw.phy.ops.force_speed_duplex = Some(Func::PhyForceSpeedDuplexM88);
            adapter.hw.phy.ops.get_cable_length = Some(Func::GetCableLengthM88);
            adapter.hw.phy.ops.get_info = Some(Func::GetPhyInfoM88);
        },
        _ => {},
    }
}

/// Initializes the PHY parameters and operations of PCH devices: gains access
/// to the PHY, identifies it, and chooses the operations by its family.
pub fn init_phy_params_pchlan(adapter: &mut Adapter) -> (res: AdResult)
    requires
        old(adapter).wf(),
    ensures
        final(adapter).wf(),
        (final(adapter)@, res) == old(adapter)@.init_phy_params(),
{
    reveal(Run::init_phy_params);
    set_pch_phy_ops(adapter);
    if let Err(e) = init_phy_workarounds_pchlan(adapter) {
        return Err(e);
    }
    if let Err(e) = identify_phy(adapter) {
        return Err(e);
    }
    let id: u32 = adapter.hw.phy.id;
    let phy_type = adapter.phy_type_from_id(id);
    set_phy_type(adapter, phy_type);
    if !phy_type.is_pch() {
        return Err(Error::UnknownPhyType);
    }
    Ok(())
}

/// Initializes the PHY parameters of ICH devices, which are not supported.
pub fn init_phy_params_ich8lan(adapter: &mut Adapter) -> (res: AdResult)
    requires
        old(adapter).wf(),
    ensures
        final(adapter).wf(),
        (final(adapter)@, res) == (old(adapter)@, Err::<(), Error>(Error::HardwareNotSupported)),
{
    Err(Error::HardwareNotSupported)
}

} // verus!
