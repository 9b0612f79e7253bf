//! The workaround that jumbo frames need from the 82579 on.

use vstd::prelude::*;
use crate::consts::{
    CV_SMB_CTRL, E1000_FFLT_DBG, E1000_KMRNCTRLSTA_CTRL_OFFSET, E1000_KMRNCTRLSTA_HD_CTRL,
    E1000_RCTL, E1000_RCTL_SECRC, E1000_TX_PTR_GAP, HV_PM_CTRL, PHY_769_16, PHY_769_20, PHY_776_20,
    PHY_776_23, PTR_GAP_MASK, PTR_GAP_SHIFT,
};
use crate::error::AdResult;
use crate::hw::MacType;
use crate::io::{Action, Adapter, Call, Feature, Run};

verus! {

/// The bit that disables the receive path, in page 769 register 20.
pub const RX_PATH_DISABLE: u16 = 0x4000;

/// The field of page 769 register 23 that the workaround sets to 0x37.
pub const SNOOP_FIELD: u16 = 0x0FE0;

pub const SNOOP_JUMBO: u16 = 0x06E0;

/// The bit of page 769 register 16 that is set when no workaround is needed.
pub const CRC_BIT: u16 = 0x2000;

/// The bit of the power management register that the workaround sets.
pub const PM_JUMBO: u16 = 0x0400;

/// The field of the half-duplex control that is set to 0xB.
pub const HD_CTRL_FIELD: u16 = 0x0F00;

pub const HD_CTRL_VALUE: u16 = 0x0B00;

/// A register value with bits cleared and then bits set.
pub open spec fn changed(v: u16, clear: u16, set: u16) -> u16 {
    (v & !clear) | set
}

/// The register settings with the workaround, and those of the hardware.
#[derive(Clone, Copy)]
pub struct JumboSettings {
    /// Bits of the Kumeran control register to clear and to set.
    pub ctrl: (u16, u16),
    /// The value of the snoop field.
    pub snoop: u16,
    /// Bits of page 769 register 16 to clear and to set.
    pub crc: (u16, u16),
    /// The transmit pointer gap, in place.
    pub gap: u16,
    /// Page 776 register 23.
    pub port: u16,
    /// Bits of the power management register to clear and to set.
    pub pm: (u16, u16),
}

pub open spec fn jumbo_settings(enable: bool) -> JumboSettings {
    if enable {
        JumboSettings {
            ctrl: (0, 1),
            snoop: SNOOP_JUMBO,
            crc: (CRC_BIT, 0),
            gap: E1000_TX_PTR_GAP << PTR_GAP_SHIFT,
            port: 0xF100,
            pm: (0, PM_JUMBO),
        }
    } else {
        JumboSettings {
            ctrl: (1, 0),
            snoop: 0,
            crc: (0, CRC_BIT),
            gap: 0x8u16 << PTR_GAP_SHIFT,
            port: 0x7E00,
            pm: (PM_JUMBO, 0),
        }
    }
}

impl Run {
    /// Reads a PHY register, changes it and writes it back. The third value is
    /// what was read; `data` is what the result variable held before.
    pub open spec fn modify_phy(self, reg: u32, data: u16, clear: u16, set: u16) -> (
        Run,
        AdResult,
        u16,
    ) {
        let (s, r, v) = self.phy_read_reg(reg, data);
        if r is Err {
            (s, r, v)
        } else {
            let (s, r) = s.phy_write_reg(reg, changed(v, clear, set));
            (s, r, v)
        }
    }

    /// The same for a register of the Kumeran interface.
    pub open spec fn modify_kmrn(self, reg: u32, data: u16, clear: u16, set: u16) -> (
        Run,
        AdResult,
        u16,
    ) {
        let (s, r, v) = self.fetch(Call::ReadKmrnReg(reg, data));
        if r is Err {
            (s, r, v)
        } else {
            let (s, r) = s.invoke(Call::WriteKmrnReg(reg, changed(v, clear, set)));
            (s, r, v)
        }
    }

    /// Changes the Kumeran interface; the third value is what the result
    /// variable holds then.
    #[verifier::opaque]
    pub open spec fn jumbo_kmrn(self, j: JumboSettings) -> (Run, AdResult, u16) {
        let (s, r, v) = self.modify_kmrn(E1000_KMRNCTRLSTA_CTRL_OFFSET, 0, j.ctrl.0, j.ctrl.1);
        if r is Err {
            (s, r, v)
        } else {
            let (s, r, v) = s.modify_kmrn(
                E1000_KMRNCTRLSTA_HD_CTRL,
                v,
                HD_CTRL_FIELD,
                HD_CTRL_VALUE,
            );
            (s, r, changed(v, HD_CTRL_FIELD, HD_CTRL_VALUE))
        }
    }

    /// Changes the PHY.
    #[verifier::opaque]
    pub open spec fn jumbo_phy(self, j: JumboSettings, data: u16) -> (Run, AdResult) {
        let (s, r, v) = self.modify_phy(CV_SMB_CTRL, data, SNOOP_FIELD, j.snoop);
        if r is Err {
            (s, r)
        } else {
            let data = changed(v, SNOOP_FIELD, j.snoop);
            let (s, r, v) = s.modify_phy(PHY_769_16, data, j.crc.0, j.crc.1);
            if r is Err {
                (s, r)
            } else {
                s.jumbo_phy_gap(j, changed(v, j.crc.0, j.crc.1))
            }
        }
    }

    #[verifier::opaque]
    pub open spec fn jumbo_phy_gap(self, j: JumboSettings, data: u16) -> (Run, AdResult) {
        let (s, r, v) = self.modify_phy(PHY_776_20, data, PTR_GAP_MASK, j.gap);
        if r is Err {
            (s, r)
        } else {
            let (s, r) = s.phy_write_reg(PHY_776_23, j.port);
            if r is Err {
                (s, r)
            } else {
                let data = changed(v, PTR_GAP_MASK, j.gap);
                let (s, r, _) = s.modify_phy(HV_PM_CTRL, data, j.pm.0, j.pm.1);
                (s, r)
            }
        }
    }

    /// Changes the MAC.
    #[verifier::opaque]
    pub open spec fn jumbo_mac(self, enable: bool) -> Run {
        if enable {
            self.modify_register(E1000_FFLT_DBG, 0x4000, 0x3_8000).set_register_bit(
                E1000_RCTL,
                E1000_RCTL_SECRC,
            )
        } else {
            self.clear_register_bit(E1000_FFLT_DBG, 0x3_C000).clear_register_bit(
                E1000_RCTL,
                E1000_RCTL_SECRC,
            )
        }
    }

    /// Enables the receive path again; `rx` is what its register held. Ends
    /// with the error of that if it fails, else with `res`.
    #[verifier::opaque]
    pub open spec fn reenable_rx_path(self, rx: u16, res: AdResult) -> (Run, AdResult) {
        let (s, r) = self.phy_write_reg(PHY_769_20, rx & !RX_PATH_DISABLE);
        (s, if r is Err { r } else { res })
    }

    /// Changes MAC, Kumeran interface and PHY, with the receive path disabled
    /// meanwhile. The last step of enabling is not implemented; how that ends
    /// is reported once the receive path is enabled again.
    #[verifier::opaque]
    pub open spec fn jumbo_workaround(self, enable: bool) -> (Run, AdResult) {
        if !self.since(MacType::Mac_pch2lan) {
            (self, Ok(()))
        } else {
            let (s, r, rx) = self.phy_read_reg(PHY_769_20, 0);
            if r is Err {
                (s, r)
            } else {
                let (s, r) = s.phy_write_reg(PHY_769_20, rx | RX_PATH_DISABLE);
                if r is Err {
                    (s, r)
                } else {
                    let j = jumbo_settings(enable);
                    let (s, r, data) = s.jumbo_mac(enable).jumbo_kmrn(j);
                    if r is Err {
                        (s, r)
                    } else {
                        let (s, r) = s.jumbo_phy(j, data);
                        if r is Err {
                            (s, r)
                        } else if enable {
                            let (s, r) = s.incomplete(Feature::LvJumboWorkaroundEnable);
                            s.reenable_rx_path(rx, r)
                        } else {
                            s.reenable_rx_path(rx, Ok(()))
                        }
                    }
                }
            }
        }
    }
}

/// Disabling the workaround gives each register the same value whether or not
/// the workaround was enabled before.
pub proof fn law_disabling_undoes_enabling(v: u16)
    ensures
        ({
            let on = jumbo_settings(true);
            let off = jumbo_settings(false);
            &&& changed(changed(v, on.ctrl.0, on.ctrl.1), off.ctrl.0, off.ctrl.1) == changed(
                v,
                off.ctrl.0,
                off.ctrl.1,
            )
            &&& changed(changed(v, SNOOP_FIELD, on.snoop), SNOOP_FIELD, off.snoop) == changed(
                v,
                SNOOP_FIELD,
                off.snoop,
            )
            &&& changed(changed(v, on.crc.0, on.crc.1), off.crc.0, off.crc.1) == changed(
                v,
                off.crc.0,
                off.crc.1,
            )
            &&& changed(changed(v, PTR_GAP_MASK, on.gap), PTR_GAP_MASK, off.gap) == changed(
                v,
                PTR_GAP_MASK,
                off.gap,
            )
            &&& changed(changed(v, on.pm.0, on.pm.1), off.pm.0, off.pm.1) == changed(
                v,
                off.pm.0,
                off.pm.1,
            )
        }),
{
    assert({
        &&& (((v & !0) | 1) & !1) | 0 == (v & !1) | 0
        &&& (((v & !0x0FE0) | 0x06E0) & !0x0FE0) | 0 == (v & !0x0FE0) | 0
        &&& (((v & !0x2000) | 0) & !0) | 0x2000 == (v & !0) | 0x2000
        &&& (((v & !0x0FFC) | (0x1Fu16 << 2u16)) & !0x0FFC) | (0x8u16 << 2u16) == (v & !0x0FFC) | (
        0x8u16 << 2u16)
        &&& (((v & !0) | 0x0400) & !0x0400) | 0 == (v & !0x0400) | 0
    }) by (bit_vector);
}

/// The receive path is off while the registers are changed and on afterwards;
/// the rest of its register is kept.
pub proof fn law_rx_path(rx: u16)
    ensures
        (rx | RX_PATH_DISABLE) & RX_PATH_DISABLE != 0,
        (rx & !RX_PATH_DISABLE) & RX_PATH_DISABLE == 0,
        (rx | RX_PATH_DISABLE) & !RX_PATH_DISABLE == rx & !RX_PATH_DISABLE,
{
    assert((rx | 0x4000) & 0x4000 != 0 && (rx & !0x4000) & 0x4000 == 0 && (rx | 0x4000) & !0x4000
        == rx & !0x4000) by (bit_vector);
}

/// Once the registers have been changed, be it to enable or to disable the
/// workaround, the last thing done is to enable the receive path again,
/// whatever comes of the step that is not implemented.
pub proof fn law_rx_path_is_reenabled(run: Run, enable: bool)
    requires
        run.since(MacType::Mac_pch2lan),
        !run.jumbo_workaround(enable).0.stalled,
    ensures
        ({
            let (s, r, rx) = run.phy_read_reg(PHY_769_20, 0);
            let (s, disabled) = s.phy_write_reg(PHY_769_20, rx | RX_PATH_DISABLE);
            let j = jumbo_settings(enable);
            let (s, kmrn, data) = s.jumbo_mac(enable).jumbo_kmrn(j);
            let (s, phy) = s.jumbo_phy(j, data);
            r is Ok && disabled is Ok && kmrn is Ok && phy is Ok ==> {
                let last = run.jumbo_workaround(enable).0.trace.last();
                &&& last matches Action::Call(call, _)
                &&& call == Call::PhyWriteReg(PHY_769_20, rx & !RX_PATH_DISABLE)
            }
        }),
        run.jumbo_workaround(enable).1 is Ok ==> {
            let last = run.jumbo_workaround(enable).0.trace.last();
            &&& last matches Action::Call(call, _)
            &&& call matches Call::PhyWriteReg(reg, v)
            &&& reg == PHY_769_20
            &&& v & RX_PATH_DISABLE == 0
        },
{
    reveal(Run::call);
    reveal(Run::jumbo_workaround);
    reveal(Run::reenable_rx_path);
    law_rx_path(run.phy_read_reg(PHY_769_20, 0).2);
}

/// Copies the receive addresses from the MAC to the PHY; not implemented, so
/// nothing is done.
pub fn copy_rx_addrs_to_phy_ich8lan(adapter: &mut Adapter)
    requires
        old(adapter).wf(),
    ensures
        final(adapter).wf(),
        final(adapter)@ == old(adapter)@,
{
}

/// The checksum of a destination address; not implemented, so it is 0.
pub fn calc_rx_da_crc(mac: &[u8]) -> (crc: u32)
    ensures
        crc == 0,
{
    0
}

fn settings(enable: bool) -> (j: JumboSettings)
    ensures
        j == jumbo_settings(enable),
{
    if enable {
        JumboSettings {
            ctrl: (0, 1),
            snoop: SNOOP_JUMBO,
            crc: (CRC_BIT, 0),
            gap: E1000_TX_PTR_GAP << PTR_GAP_SHIFT,
            port: 0xF100,
            pm: (0, PM_JUMBO),
        }
    } else {
        JumboSettings {
            ctrl: (1, 0),
            snoop: 0,
            crc: (0, CRC_BIT),
            gap: 0x8u16 << PTR_GAP_SHIFT,
            port: 0x7E00,
            pm: (PM_JUMBO, 0),
        }
    }
}

fn modify_phy(adapter: &mut Adapter, reg: u32, data: &mut u16, clear: u16, set: u16) -> (res:
    AdResult)
    requires
        old(adapter).wf(),
    ensures
        final(adapter).wf(),
        (final(adapter)@, res, *final(data)) == old(adapter)@.modify_phy(
            reg,
            *old(data),
            clear,
            set,
        ),
{
    if let Err(e) = adapter.phy_read_reg(reg, data) {
        return Err(e);
    }
    adapter.phy_write_reg(reg, (*data & !clear) | set)
}

fn modify_kmrn(adapter: &mut Adapter, reg: u32, data: &mut u16, clear: u16, set: u16) -> (res:
    AdResult)
    requires
        old(adapter).wf(),
    ensures
        final(adapter).wf(),
        (final(adapter)@, res, *final(data)) == old(adapter)@.modify_kmrn(
            reg,
            *old(data),
            clear,
            set,
        ),
{
    let read = Call::ReadKmrnReg(reg, *data);
    if let Err(e) = adapter.fetch(read, data) {
        return Err(e);
    }
    adapter.invoke(Call::WriteKmrnReg(reg, (*data & !clear) | set))
}

fn jumbo_kmrn(adapter: &mut Adapter, j: JumboSettings, data: &mut u16) -> (res: AdResult)
    requires
        old(adapter).wf(),
    ensures
        final(adapter).wf(),
        (final(adapter)@, res, *final(data)) == old(adapter)@.jumbo_kmrn(j),
{
    reveal(Run::jumbo_kmrn);
    *data = 0;
    if let Err(e) = modify_kmrn(
        adapter,
        E1000_KMRNCTRLSTA_CTRL_OFFSET,
        data,
        j.ctrl.0,
        j.ctrl.1,
    ) {
        return Err(e);
    }
    let res = modify_kmrn(adapter, E1000_KMRNCTRLSTA_HD_CTRL, data, HD_CTRL_FIELD, HD_CTRL_VALUE);
    *data = (*data & !HD_CTRL_FIELD) | HD_CTRL_VALUE;
    res
}

fn jumbo_phy(adapter: &mut Adapter, j: JumboSettings, data: u16) -> (res: AdResult)
    requires
        old(adapter).wf(),
    ensures
        final(adapter).wf(),
        (final(adapter)@, res) == old(adapter)@.jumbo_phy(j, data),
{
    reveal(Run::jumbo_phy);
    let mut data: u16 = data;
    if let Err(e) = modify_phy(adapter, CV_SMB_CTRL, &mut data, SNOOP_FIELD, j.snoop) {
        return Err(e);
    }
    data = (data & !SNOOP_FIELD) | j.snoop;
    if let Err(e) = modify_phy(adapter, PHY_769_16, &mut data, j.crc.0, j.crc.1) {
        return Err(e);
    }
    data = (data & !j.crc.0) | j.crc.1;
    jumbo_phy_gap(adapter, j, data)
}

fn jumbo_phy_gap(adapter: &mut Adapter, j: JumboSettings, data: u16) -> (res: AdResult)
    requires
        old(adapter).wf(),
    ensures
        final(adapter).wf(),
        (final(adapter)@, res) == old(adapter)@.jumbo_phy_gap(j, data),
{
    reveal(Run::jumbo_phy_gap);
    let mut data: u16 = data;
    if let Err(e) = modify_phy(adapter, PHY_776_20, &mut data, PTR_GAP_MASK, j.gap) {
        return Err(e);
    }
    data = (data & !PTR_GAP_MASK) | j.gap;
    if let Err(e) = adapter.phy_write_reg(PHY_776_23, j.port) {
        return Err(e);
    }
    modify_phy(adapter, HV_PM_CTRL, &mut data, j.pm.0, j.pm.1)
}

fn jumbo_mac(adapter: &mut Adapter, enable: bool)
    requires
        old(adapter).wf(),
    ensures
        final(adapter).wf(),
        final(adapter)@ == old(adapter)@.jumbo_mac(enable),
{
    reveal(Run::jumbo_mac);
    if enable {
        copy_rx_addrs_to_phy_ich8lan(adapter);
        adapter.modify_register(E1000_FFLT_DBG, 0x4000, 0x3_8000);
        adapter.set_register_bit(E1000_RCTL, E1000_RCTL_SECRC);
    } else {
        adapter.clear_register_bit(E1000_FFLT_DBG, 0x3_C000);
        adapter.clear_register_bit(E1000_RCTL, E1000_RCTL_SECRC);
    }
}

fn reenable_rx_path(adapter: &mut Adapter, rx: u16, res: AdResult) -> (out: AdResult)
    requires
        old(adapter).wf(),
    ensures
        final(adapter).wf(),
        (final(adapter)@, out) == old(adapter)@.reenable_rx_path(rx, res),
{
    reveal(Run::reenable_rx_path);
    let r = adapter.phy_write_reg(PHY_769_20, rx & !RX_PATH_DISABLE);
    if r.is_err() {
        r
    } else {
        res
    }
}

/// Enables or disables the workaround that jumbo frames need with an 82579
/// PHY. The receive path is disabled meanwhile. The last step of enabling is
/// not implemented.
pub fn lv_jumbo_workaround(adapter: &mut Adapter, enable: bool) -> (res: AdResult)
    requires
        old(adapter).wf(),
    ensures
        final(adapter).wf(),
        (final(adapter)@, res) == old(adapter)@.jumbo_workaround(enable),
{
    reveal(Run::jumbo_workaround);
    if !adapter.mac_since(MacType::Mac_pch2lan) {
        return Ok(());
    }
    let mut phy_reg: u16 = 0;
    if let Err(e) = adapter.phy_read_reg(PHY_769_20, &mut phy_reg) {
        return Err(e);
    }
    if let Err(e) = adapter.phy_write_reg(PHY_769_20, phy_reg | RX_PATH_DISABLE) {
        return Err(e);
    }
    let j = settings(enable);
    jumbo_mac(adapter, enable);
    let mut data: u16 = 0;
    if let Err(e) = jumbo_kmrn(adapter, j, &mut data) {
        return Err(e);
    }
    if let Err(e) = jumbo_phy(adapter, j, data) {
        return Err(e);
    }
    let mut res: AdResult = Ok(());
    if enable {
        res = adapter.incomplete(Feature::LvJumboWorkaroundEnable);
    }
    reenable_rx_path(adapter, phy_reg, res)
}

} // verus!
