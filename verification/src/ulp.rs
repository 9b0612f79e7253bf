//! The ultra low power mode of the PHY.

use vstd::prelude::*;
use crate::consts::{
    CV_SMB_CTRL, CV_SMB_CTRL_FORCE_SMBUS, E1000_CTRL_EXT, E1000_CTRL_EXT_FORCE_SMBUS,
    E1000_DEV_ID_PCH_I218_LM2, E1000_DEV_ID_PCH_I218_V2, E1000_DEV_ID_PCH_LPT_I217_LM,
    E1000_DEV_ID_PCH_LPT_I217_V, E1000_FEXTNVM7, E1000_FEXTNVM7_DISABLE_SMB_PERST, E1000_FWSM,
    E1000_FWSM_ULP_CFG_DONE, E1000_H2ME, E1000_H2ME_ENFORCE_SETTINGS, E1000_H2ME_ULP,
    E1000_ICH_FWSM_FW_VALID, HV_PM_CTRL, HV_PM_CTRL_K1_ENABLE, I218_ULP_CONFIG1,
    I218_ULP_CONFIG1_ENABLED_BITS, I218_ULP_CONFIG1_START,
};
use crate::error::{AdResult, Error};
use crate::hw::{DevSpecIch8lan, Hw, MacType, UlpState};
use crate::io::{Adapter, Call, Feature, Run};
use crate::keeping::{group_keeps, Part};
use crate::lanphypc::toggle_lanphypc_pch_lpt;

verus! {

/// How often the driver looks whether the firmware has left the mode.
pub const ULP_TRIES: u32 = 31;

impl Hw {
    /// Whether the device can be in ultra low power mode: Lynx Point and later
    /// but for some devices, unless the mode is known to be off.
    pub open spec fn may_be_in_ulp(self) -> bool {
        &&& self.mac.mac_type.since(MacType::Mac_pch_lpt)
        &&& self.dev_spec.ulp_state != UlpState::Off
        &&& self.device_id != E1000_DEV_ID_PCH_LPT_I217_LM
        &&& self.device_id != E1000_DEV_ID_PCH_LPT_I217_V
        &&& self.device_id != E1000_DEV_ID_PCH_I218_LM2
        &&& self.device_id != E1000_DEV_ID_PCH_I218_V2
    }
}

impl Run {
    /// The run with another record of the mode.
    #[verifier::opaque]
    pub open spec fn with_ulp_state(self, state: UlpState) -> Run {
        self.with_hw(
            Hw { dev_spec: DevSpecIch8lan { ulp_state: state, ..self.hw.dev_spec }, ..self.hw },
        )
    }

    /// Looks up to `tries` times, 10 ms apart, whether the firmware is done
    /// with leaving the mode.
    pub open spec fn poll_ulp(self, tries: int) -> (Run, bool)
        decreases tries,
    {
        let (s, fwsm) = self.read_register(E1000_FWSM);
        if fwsm & E1000_FWSM_ULP_CFG_DONE == 0 {
            (s, true)
        } else if tries <= 1 {
            (s, false)
        } else {
            s.msec_delay(10).poll_ulp(tries - 1)
        }
    }

    /// Lets the firmware leave the mode, and waits for it.
    #[verifier::opaque]
    pub open spec fn leave_ulp_by_firmware(self, force: bool) -> (Run, AdResult) {
        let s = if force {
            self.modify_register(E1000_H2ME, E1000_H2ME_ULP, E1000_H2ME_ENFORCE_SETTINGS)
        } else {
            self
        };
        let (s, done) = s.poll_ulp(ULP_TRIES as int);
        if !done {
            (s, Err(Error::UlpConfigure))
        } else {
            let request = if force {
                E1000_H2ME_ENFORCE_SETTINGS
            } else {
                E1000_H2ME_ULP
            };
            (s.clear_register_bit(E1000_H2ME, request).with_ulp_state(UlpState::Off), Ok(()))
        }
    }

    /// Releases the PHY, and resets it if the mode is left by force.
    #[verifier::opaque]
    pub open spec fn release_from_ulp(self, force: bool) -> (Run, AdResult) {
        let (s, r) = self.phy_release();
        if r is Err {
            (s, r)
        } else if !force {
            (s, Ok(()))
        } else {
            let (s, r) = s.invoke(Call::PhyReset);
            if r is Err {
                (s, r)
            } else {
                (s.msec_delay(50), Ok(()))
            }
        }
    }

    /// Reads the SMBus control register of the PHY, if need be with the MAC
    /// forced to SMBus mode.
    #[verifier::opaque]
    pub open spec fn reach_smb_ctrl(self) -> (Run, AdResult, u16) {
        let (s, r, reg) = self.fetch(Call::ReadPhyRegHvLocked(CV_SMB_CTRL, 0));
        if r is Ok {
            (s, Ok(()), reg)
        } else {
            s.set_register_bit(E1000_CTRL_EXT, E1000_CTRL_EXT_FORCE_SMBUS).msec_delay(50).fetch(
                Call::ReadPhyRegHvLocked(CV_SMB_CTRL, reg),
            )
        }
    }

    /// Clears the settings of the mode in the PHY; whether all registers that
    /// are needed could be read. Errors of writes are passed over.
    #[verifier::opaque]
    pub open spec fn clear_ulp_in_phy(self) -> (Run, bool) {
        let (s, r, reg) = self.reach_smb_ctrl();
        if r is Err {
            (s, false)
        } else {
            let unforced = Call::WritePhyRegHvLocked(CV_SMB_CTRL, reg & !CV_SMB_CTRL_FORCE_SMBUS);
            let s = s.invoke(unforced).0.clear_register_bit(
                E1000_CTRL_EXT,
                E1000_CTRL_EXT_FORCE_SMBUS,
            );
            s.reconfigure_ulp(reg & !CV_SMB_CTRL_FORCE_SMBUS)
        }
    }

    /// Enables K1 again and clears the configuration of the mode, where `reg`
    /// is what the last register read held.
    #[verifier::opaque]
    pub open spec fn reconfigure_ulp(self, reg: u16) -> (Run, bool) {
        let (s, r, pm) = self.fetch(Call::ReadPhyRegHvLocked(HV_PM_CTRL, reg));
        if r is Err {
            (s, false)
        } else {
            let k1 = pm | HV_PM_CTRL_K1_ENABLE;
            let (s, _) = s.invoke(Call::WritePhyRegHvLocked(HV_PM_CTRL, k1));
            let (s, r, ulp) = s.fetch(Call::ReadPhyRegHvLocked(I218_ULP_CONFIG1, k1));
            if r is Err {
                (s, false)
            } else {
                let off = ulp & !I218_ULP_CONFIG1_ENABLED_BITS;
                let (s, _) = s.invoke(Call::WritePhyRegHvLocked(I218_ULP_CONFIG1, off));
                let start = Call::WritePhyRegHvLocked(
                    I218_ULP_CONFIG1,
                    off | I218_ULP_CONFIG1_START,
                );
                let (s, _) = s.invoke(start);
                (s.clear_register_bit(E1000_FEXTNVM7, E1000_FEXTNVM7_DISABLE_SMB_PERST), true)
            }
        }
    }

    /// Leaves the mode without the firmware. If a register that is needed
    /// cannot be read, the mode is not recorded as off.
    #[verifier::opaque]
    pub open spec fn leave_ulp_by_software(self, force: bool) -> (Run, AdResult) {
        let (s, r) = self.phy_acquire();
        if r is Err {
            (s, r)
        } else {
            let s = if force {
                s.toggle_lanphypc()
            } else {
                s
            };
            let (s, cleared) = s.clear_ulp_in_phy();
            let (s, r) = s.release_from_ulp(force);
            if r is Ok && cleared {
                (s.with_ulp_state(UlpState::Off), Ok(()))
            } else {
                (s, r)
            }
        }
    }

    #[verifier::opaque]
    pub open spec fn disable_ulp(self, force: bool) -> (Run, AdResult) {
        if !self.hw.may_be_in_ulp() {
            (self, Ok(()))
        } else {
            let (s, fwsm) = self.read_register(E1000_FWSM);
            if fwsm & E1000_ICH_FWSM_FW_VALID != 0 {
                s.leave_ulp_by_firmware(force)
            } else {
                s.leave_ulp_by_software(force)
            }
        }
    }
}

/// Once the mode is recorded as off, leaving it does nothing; and that is so
/// after the firmware has left it.
pub proof fn law_ulp_is_left_once(run: Run, force: bool)
    ensures
        run.hw.dev_spec.ulp_state == UlpState::Off ==> run.disable_ulp(force) == (
            run,
            Ok::<(), Error>(()),
        ),
        run.leave_ulp_by_firmware(force).1 is Ok ==> run.leave_ulp_by_firmware(
            force,
        ).0.hw.dev_spec.ulp_state == UlpState::Off,
{
    reveal(Run::disable_ulp);
    reveal(Run::leave_ulp_by_firmware);
    reveal(Run::with_ulp_state);
}

/// Leaving the mode records it as off or leaves the record as it was, and the
/// latter wherever there is an error. The functions that are called must leave
/// the record alone.
pub proof fn law_ulp_state_recorded(run: Run, force: bool)
    requires
        run.disable_ulp(force).0.calls_keep(Part::Ulp),
    ensures
        ({
            let (s, r) = run.disable_ulp(force);
            let state = s.hw.dev_spec.ulp_state;
            &&& state == run.hw.dev_spec.ulp_state || state == UlpState::Off
            &&& r is Err ==> state == run.hw.dev_spec.ulp_state
        }),
{
    broadcast use {
        group_keeps,
        Run::lemma_toggle_lanphypc_keeps,
        Run::lemma_poll_ulp_keeps,
        Run::lemma_release_from_ulp_keeps,
        Run::lemma_clear_ulp_in_phy_keeps,
    };

    reveal(Run::disable_ulp);
    reveal(Run::leave_ulp_by_firmware);
    reveal(Run::leave_ulp_by_software);
    reveal(Run::with_ulp_state);
    let part = Part::Ulp;
    let (s, _) = run.disable_ulp(force);
    assert(part.of(s.hw) == part.of(run.hw) || s.hw.dev_spec.ulp_state == UlpState::Off);
}

/// Families before Lynx Point, and the devices that do not have the mode, are
/// left alone.
pub proof fn law_ulp_only_where_it_is(run: Run, force: bool)
    requires
        !run.hw.may_be_in_ulp(),
    ensures
        run.disable_ulp(force) == (run, Ok::<(), Error>(())),
{
    reveal(Run::disable_ulp);
}

/// Records what is known of the mode.
pub(crate) fn set_ulp_state(adapter: &mut Adapter, state: UlpState)
    requires
        old(adapter).wf(),
    ensures
        final(adapter).wf(),
        final(adapter)@ == old(adapter)@.with_ulp_state(state),
{
    reveal(Run::with_ulp_state);
    adapter.hw.dev_spec.ulp_state = state;
}

/// Enters ultra low power mode; not implemented.
pub fn enable_ulp_lpt_lp(adapter: &mut Adapter, to_sx: bool) -> (res: AdResult)
    requires
        old(adapter).wf(),
    ensures
        final(adapter).wf(),
        (final(adapter)@, res) == old(adapter)@.incomplete(Feature::EnableUlpLptLp),
{
    adapter.incomplete(Feature::EnableUlpLptLp)
}

fn poll_ulp(adapter: &mut Adapter) -> (done: bool)
    requires
        old(adapter).wf(),
    ensures
        final(adapter).wf(),
        (final(adapter)@, done) == old(adapter)@.poll_ulp(ULP_TRIES as int),
{
    let mut left: u32 = ULP_TRIES;
    loop
        invariant
            adapter.wf(),
            1 <= left <= ULP_TRIES,
            adapter@.poll_ulp(left as int) == old(adapter)@.poll_ulp(ULP_TRIES as int),
        decreases left,
    {
        if adapter.read_register(E1000_FWSM) & E1000_FWSM_ULP_CFG_DONE == 0 {
            return true;
        }
        if left == 1 {
            return false;
        }
        left = left - 1;
        adapter.msec_delay(10);
    }
}

fn leave_ulp_by_firmware(adapter: &mut Adapter, force: bool) -> (res: AdResult)
    requires
        old(adapter).wf(),
    ensures
        final(adapter).wf(),
        (final(adapter)@, res) == old(adapter)@.leave_ulp_by_firmware(force),
{
    reveal(Run::leave_ulp_by_firmware);
    if force {
        adapter.modify_register(E1000_H2ME, E1000_H2ME_ULP, E1000_H2ME_ENFORCE_SETTINGS);
    }
    if !poll_ulp(adapter) {
        return Err(Error::UlpConfigure);
    }
    if force {
        adapter.clear_register_bit(E1000_H2ME, E1000_H2ME_ENFORCE_SETTINGS);
    } else {
        adapter.clear_register_bit(E1000_H2ME, E1000_H2ME_ULP);
    }
    set_ulp_state(adapter, UlpState::Off);
    Ok(())
}

fn release_from_ulp(adapter: &mut Adapter, force: bool) -> (res: AdResult)
    requires
        old(adapter).wf(),
    ensures
        final(adapter).wf(),
        (final(adapter)@, res) == old(adapter)@.release_from_ulp(force),
{
    reveal(Run::release_from_ulp);
    if let Err(e) = adapter.phy_release() {
        return Err(e);
    }
    if force {
        if let Err(e) = adapter.invoke(Call::PhyReset) {
            return Err(e);
        }
        adapter.msec_delay(50);
    }
    Ok(())
}

fn reach_smb_ctrl(adapter: &mut Adapter, reg: &mut u16) -> (res: AdResult)
    requires
        old(adapter).wf(),
    ensures
        final(adapter).wf(),
        (final(adapter)@, res, *final(reg)) == old(adapter)@.reach_smb_ctrl(),
{
    reveal(Run::reach_smb_ctrl);
    if adapter.fetch(Call::ReadPhyRegHvLocked(CV_SMB_CTRL, 0), reg).is_ok() {
        return Ok(());
    }
    adapter.set_register_bit(E1000_CTRL_EXT, E1000_CTRL_EXT_FORCE_SMBUS);
    adapter.msec_delay(50);
    let again = Call::ReadPhyRegHvLocked(CV_SMB_CTRL, *reg);
    adapter.fetch(again, reg)
}

fn reconfigure_ulp(adapter: &mut Adapter, reg: u16) -> (cleared: bool)
    requires
        old(adapter).wf(),
    ensures
        final(adapter).wf(),
        (final(adapter)@, cleared) == old(adapter)@.reconfigure_ulp(reg),
{
    reveal(Run::reconfigure_ulp);
    let mut phy_reg: u16 = reg;
    // Entering the mode disabled K1.
    if adapter.fetch(Call::ReadPhyRegHvLocked(HV_PM_CTRL, reg), &mut phy_reg).is_err() {
        return false;
    }
    phy_reg = phy_reg | HV_PM_CTRL_K1_ENABLE;
    let _ = adapter.invoke(Call::WritePhyRegHvLocked(HV_PM_CTRL, phy_reg));
    let read = Call::ReadPhyRegHvLocked(I218_ULP_CONFIG1, phy_reg);
    if adapter.fetch(read, &mut phy_reg).is_err() {
        return false;
    }
    phy_reg = phy_reg & !I218_ULP_CONFIG1_ENABLED_BITS;
    let _ = adapter.invoke(Call::WritePhyRegHvLocked(I218_ULP_CONFIG1, phy_reg));
    phy_reg = phy_reg | I218_ULP_CONFIG1_START;
    let _ = adapter.invoke(Call::WritePhyRegHvLocked(I218_ULP_CONFIG1, phy_reg));
    adapter.clear_register_bit(E1000_FEXTNVM7, E1000_FEXTNVM7_DISABLE_SMB_PERST);
    true
}

fn clear_ulp_in_phy(adapter: &mut Adapter) -> (cleared: bool)
    requires
        old(adapter).wf(),
    ensures
        final(adapter).wf(),
        (final(adapter)@, cleared) == old(adapter)@.clear_ulp_in_phy(),
{
    reveal(Run::clear_ulp_in_phy);
    let mut phy_reg: u16 = 0;
    if reach_smb_ctrl(adapter, &mut phy_reg).is_err() {
        return false;
    }
    phy_reg = phy_reg & !CV_SMB_CTRL_FORCE_SMBUS;
    let _ = adapter.invoke(Call::WritePhyRegHvLocked(CV_SMB_CTRL, phy_reg));
    adapter.clear_register_bit(E1000_CTRL_EXT, E1000_CTRL_EXT_FORCE_SMBUS);
    reconfigure_ulp(adapter, phy_reg)
}

fn leave_ulp_by_software(adapter: &mut Adapter, force: bool) -> (res: AdResult)
    requires
        old(adapter).wf(),
    ensures
        final(adapter).wf(),
        (final(adapter)@, res) == old(adapter)@.leave_ulp_by_software(force),
{
    reveal(Run::leave_ulp_by_software);
    if let Err(e) = adapter.phy_acquire() {
        return Err(e);
    }
    if force {
        toggle_lanphypc_pch_lpt(adapter);
    }
    let cleared = clear_ulp_in_phy(adapter);
    let res = release_from_ulp(adapter, force);
    if res.is_ok() && cleared {
        set_ulp_state(adapter, UlpState::Off);
        return Ok(());
    }
    res
}

/// Leaves ultra low power mode: where the firmware manages the PHY, by asking
/// it and waiting until it is done, else by software. `force` is for loading
/// and unloading the driver and for resuming; otherwise the mode is left
/// because the link came up.
pub fn disable_ulp_lpt_lp(adapter: &mut Adapter, force: bool) -> (res: AdResult)
    requires
        old(adapter).wf(),
    ensures
        final(adapter).wf(),
        (final(adapter)@, res) == old(adapter)@.disable_ulp(force),
{
    reveal(Run::disable_ulp);
    let id: u16 = adapter.hw.device_id;
    if !adapter.mac_since(MacType::Mac_pch_lpt) || adapter.hw.dev_spec.ulp_state == UlpState::Off
        || id == E1000_DEV_ID_PCH_LPT_I217_LM || id == E1000_DEV_ID_PCH_LPT_I217_V || id
        == E1000_DEV_ID_PCH_I218_LM2 || id == E1000_DEV_ID_PCH_I218_V2 {
        return Ok(());
    }
    if adapter.read_register(E1000_FWSM) & E1000_ICH_FWSM_FW_VALID != 0 {
        leave_ulp_by_firmware(adapter, force)
    } else {
        leave_ulp_by_software(adapter, force)
    }
}

} // verus!
