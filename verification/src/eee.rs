//! Energy efficient Ethernet.

use vstd::prelude::*;
use crate::consts::{
    I217_EEE_ADVERTISEMENT, I217_EEE_LP_ABILITY, I217_EEE_PCS_STATUS, I82579_EEE_1000_SUPPORTED,
    I82579_EEE_100_SUPPORTED, I82579_LPI_CTRL, I82579_LPI_CTRL_1000_ENABLE,
    I82579_LPI_CTRL_100_ENABLE, I82579_LPI_CTRL_ENABLE_MASK, NWAY_LPAR_100TX_FD_CAPS,
    PHY_LP_ABILITY,
};
use crate::emi::read_emi_reg_locked;
use crate::error::AdResult;
use crate::hw::{DevSpecIch8lan, Hw, PhyType};
use crate::io::{Adapter, Feature, Run};

verus! {

/// Whether both ends of the link can do what `mode` stands for.
pub open spec fn common_ability(adv: u16, partner: u16, mode: u16) -> bool {
    adv & partner & mode != 0
}

impl Run {
    /// The run with another record of the link partner's ability.
    #[verifier::opaque]
    pub open spec fn with_lp_ability(self, ability: u16) -> Run {
        self.with_hw(
            Hw {
                dev_spec: DevSpecIch8lan { eee_lp_ability: ability, ..self.hw.dev_spec },
                ..self.hw
            },
        )
    }

    /// Settles in which speeds low power idle is enabled, on top of the other
    /// bits of the control register in `lpi_ctrl`: in those that this end
    /// advertises and the partner is capable of, and at 100 Mb/s only if the
    /// partner can do full duplex there, else the partner is taken to be
    /// incapable. The third value is the control register; the fourth is what
    /// was read of the ability that the partner announces, or 0. An error of
    /// reading the latter leaves the semaphore held.
    #[verifier::opaque]
    pub open spec fn negotiate_eee(self, lpi_ctrl: u16) -> (Run, AdResult, u16, u16) {
        let (s, r, partner) = self.read_emi(
            I217_EEE_LP_ABILITY,
            self.hw.dev_spec.eee_lp_ability,
        );
        if r is Err {
            let (s, r) = s.release_and(r);
            (s, r, lpi_ctrl, 0)
        } else {
            let (s, r, adv) = s.with_lp_ability(partner).read_emi(I217_EEE_ADVERTISEMENT, 0);
            if r is Err {
                let (s, r) = s.release_and(r);
                (s, r, lpi_ctrl, 0)
            } else {
                let ability = s.hw.dev_spec.eee_lp_ability;
                let ctrl = if common_ability(adv, ability, I82579_EEE_1000_SUPPORTED) {
                    lpi_ctrl | I82579_LPI_CTRL_1000_ENABLE
                } else {
                    lpi_ctrl
                };
                if common_ability(adv, ability, I82579_EEE_100_SUPPORTED) {
                    let (s, r, data) = s.phy_read_reg_locked(PHY_LP_ABILITY, 0);
                    if r is Err {
                        (s, r, ctrl, data)
                    } else if data & NWAY_LPAR_100TX_FD_CAPS != 0 {
                        (s, Ok(()), ctrl | I82579_LPI_CTRL_100_ENABLE, data)
                    } else {
                        let now = s.hw.dev_spec.eee_lp_ability;
                        (s.with_lp_ability(now & !I82579_EEE_100_SUPPORTED), Ok(()), ctrl, data)
                    }
                } else {
                    (s, Ok(()), ctrl, 0)
                }
            }
        }
    }

    /// Clears the status bits of received low power idle and writes the
    /// control register. `data` is what a read that gives no value gives again.
    #[verifier::opaque]
    pub open spec fn finish_eee(self, lpi_ctrl: u16, data: u16) -> (Run, AdResult) {
        if self.hw.phy.phy_type == PhyType::Type_82579 {
            self.incomplete(Feature::SetEee82579)
        } else {
            let (s, r, _) = self.read_emi(I217_EEE_PCS_STATUS, data);
            if r is Err {
                s.release_and(r)
            } else {
                let (s, r) = s.phy_write_reg_locked(I82579_LPI_CTRL, lpi_ctrl);
                s.release_and(r)
            }
        }
    }

    /// Sets up energy efficient Ethernet on an I217. An error of reading the
    /// control register leaves the semaphore held.
    #[verifier::opaque]
    pub open spec fn set_eee(self) -> (Run, AdResult) {
        if self.hw.phy.phy_type == PhyType::Type_82579 {
            self.incomplete(Feature::SetEee82579)
        } else if self.hw.phy.phy_type != PhyType::Type_i217 {
            (self, Ok(()))
        } else {
            let (s, r) = self.phy_acquire();
            if r is Err {
                (s, r)
            } else {
                let (s, r, ctrl) = s.phy_read_reg_locked(I82579_LPI_CTRL, 0);
                let off = ctrl & !I82579_LPI_CTRL_ENABLE_MASK;
                if r is Err {
                    (s, r)
                } else if s.hw.dev_spec.eee_disable {
                    s.finish_eee(off, 0)
                } else {
                    let (s, r, ctrl, data) = s.negotiate_eee(off);
                    if r is Ok {
                        s.finish_eee(ctrl, data)
                    } else {
                        (s, r)
                    }
                }
            }
        }
    }
}

/// Energy efficient Ethernet is enabled only for speeds in which the link
/// partner is capable of it and this end advertises it: at 1 Gb/s exactly
/// then, at 100 Mb/s only then. The other bits of the control register are
/// kept.
pub proof fn law_eee_needs_both_ends(run: Run, lpi_ctrl: u16)
    requires
        lpi_ctrl & I82579_LPI_CTRL_ENABLE_MASK == 0,
        run.negotiate_eee(lpi_ctrl).1 is Ok,
    ensures
        ({
            let (s, _, partner) = run.read_emi(
                I217_EEE_LP_ABILITY,
                run.hw.dev_spec.eee_lp_ability,
            );
            let (s, _, adv) = s.with_lp_ability(partner).read_emi(I217_EEE_ADVERTISEMENT, 0);
            let ability = s.hw.dev_spec.eee_lp_ability;
            let ctrl = run.negotiate_eee(lpi_ctrl).2;
            &&& ctrl & I82579_LPI_CTRL_1000_ENABLE != 0 <==> common_ability(
                adv,
                ability,
                I82579_EEE_1000_SUPPORTED,
            )
            &&& ctrl & I82579_LPI_CTRL_100_ENABLE != 0 ==> common_ability(
                adv,
                ability,
                I82579_EEE_100_SUPPORTED,
            )
            &&& ctrl & !I82579_LPI_CTRL_ENABLE_MASK == lpi_ctrl
        }),
{
    reveal(Run::negotiate_eee);
    assert({
        &&& lpi_ctrl & 0x4000 == 0 && lpi_ctrl & 0x2000 == 0 && lpi_ctrl & !0x6000 == lpi_ctrl
        &&& (lpi_ctrl | 0x4000) & 0x4000 != 0 && (lpi_ctrl | 0x4000) & 0x2000 == 0
        &&& (lpi_ctrl | 0x4000) & !0x6000 == lpi_ctrl
        &&& (lpi_ctrl | 0x2000) & 0x4000 == 0 && (lpi_ctrl | 0x2000) & !0x6000 == lpi_ctrl
        &&& (lpi_ctrl | 0x4000 | 0x2000) & 0x4000 != 0
        &&& (lpi_ctrl | 0x4000 | 0x2000) & !0x6000 == lpi_ctrl
    }) by (bit_vector)
        requires
            lpi_ctrl & 0x6000 == 0,
    ;
}

/// Records the link partner's ability.
pub(crate) fn set_lp_ability(adapter: &mut Adapter, ability: u16)
    requires
        old(adapter).wf(),
    ensures
        final(adapter).wf(),
        final(adapter)@ == old(adapter)@.with_lp_ability(ability),
{
    reveal(Run::with_lp_ability);
    adapter.hw.dev_spec.eee_lp_ability = ability;
}

fn negotiate_eee(adapter: &mut Adapter, lpi_ctrl: &mut u16, data: &mut u16) -> (res: AdResult)
    requires
        old(adapter).wf(),
        *old(data) == 0,
    ensures
        final(adapter).wf(),
        (final(adapter)@, res, *final(lpi_ctrl), *final(data)) == old(adapter)@.negotiate_eee(
            *old(lpi_ctrl),
        ),
{
    reveal(Run::negotiate_eee);
    let mut partner: u16 = adapter.hw.dev_spec.eee_lp_ability;
    if let Err(e) = read_emi_reg_locked(adapter, I217_EEE_LP_ABILITY, &mut partner) {
        return adapter.release_and(Err(e));
    }
    set_lp_ability(adapter, partner);
    let mut adv: u16 = 0;
    if let Err(e) = read_emi_reg_locked(adapter, I217_EEE_ADVERTISEMENT, &mut adv) {
        return adapter.release_and(Err(e));
    }
    let ability: u16 = adapter.hw.dev_spec.eee_lp_ability;
    if adv & ability & I82579_EEE_1000_SUPPORTED != 0 {
        *lpi_ctrl = *lpi_ctrl | I82579_LPI_CTRL_1000_ENABLE;
    }
    if adv & ability & I82579_EEE_100_SUPPORTED != 0 {
        if let Err(e) = adapter.phy_read_reg_locked(PHY_LP_ABILITY, data) {
            return Err(e);
        }
        if *data & NWAY_LPAR_100TX_FD_CAPS != 0 {
            *lpi_ctrl = *lpi_ctrl | I82579_LPI_CTRL_100_ENABLE;
        } else {
            let now: u16 = adapter.hw.dev_spec.eee_lp_ability;
            set_lp_ability(adapter, now & !I82579_EEE_100_SUPPORTED);
        }
    }
    Ok(())
}

fn finish_eee(adapter: &mut Adapter, lpi_ctrl: u16, data: u16) -> (res: AdResult)
    requires
        old(adapter).wf(),
    ensures
        final(adapter).wf(),
        (final(adapter)@, res) == old(adapter)@.finish_eee(lpi_ctrl, data),
{
    reveal(Run::finish_eee);
    if adapter.hw.phy.phy_type == PhyType::Type_82579 {
        return adapter.incomplete(Feature::SetEee82579);
    }
    let mut data: u16 = data;
    if let Err(e) = read_emi_reg_locked(adapter, I217_EEE_PCS_STATUS, &mut data) {
        return adapter.release_and(Err(e));
    }
    let res = adapter.phy_write_reg_locked(I82579_LPI_CTRL, lpi_ctrl);
    adapter.release_and(res)
}

/// Enables or disables energy efficient Ethernet, from the setting in the
/// device state, the duplex of the link and what the link partner is capable
/// of.
pub fn set_eee_pchlan(adapter: &mut Adapter) -> (res: AdResult)
    requires
        old(adapter).wf(),
    ensures
        final(adapter).wf(),
        (final(adapter)@, res) == old(adapter)@.set_eee(),
{
    reveal(Run::set_eee);
    match adapter.hw.phy.phy_type {
        PhyType::Type_82579 => {
            return adapter.incomplete(Feature::SetEee82579);
        },
        PhyType::Type_i217 => {},
        _ => {
            return Ok(());
        },
    }
    if let Err(e) = adapter.phy_acquire() {
        return Err(e);
    }
    let mut lpi_ctrl: u16 = 0;
    if let Err(e) = adapter.phy_read_reg_locked(I82579_LPI_CTRL, &mut lpi_ctrl) {
        return Err(e);
    }
    lpi_ctrl = lpi_ctrl & !I82579_LPI_CTRL_ENABLE_MASK;
    if adapter.hw.dev_spec.eee_disable {
        return finish_eee(adapter, lpi_ctrl, 0);
    }
    let mut data: u16 = 0;
    if let Err(e) = negotiate_eee(adapter, &mut lpi_ctrl, &mut data) {
        return Err(e);
    }
    finish_eee(adapter, lpi_ctrl, data)
}

} // verus!
