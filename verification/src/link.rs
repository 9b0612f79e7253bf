//! Watching the copper link.

use vstd::prelude::*;
use crate::consts::{
    E1000_DEV_ID_PCH_I218_LM3, E1000_DEV_ID_PCH_I218_V3, E1000_DEV_ID_PCH_LPTLP_I218_LM,
    E1000_DEV_ID_PCH_LPTLP_I218_V, E1000_FEXTNVM4, E1000_FEXTNVM4_BEACON_DURATION_8USEC,
    E1000_FEXTNVM4_BEACON_DURATION_MASK, E1000_FEXTNVM6, E1000_FEXTNVM6_K1_OFF_ENABLE,
    E1000_PCIEANACFG, E1000_STATUS, E1000_STATUS_FD, E1000_TIPG, E1000_TIPG_IPGT_MASK, FULL_DUPLEX,
    HALF_DUPLEX, HV_KMRN_FIFO_CTRLSTA, HV_KMRN_FIFO_CTRLSTA_PREAMBLE_MASK,
    HV_KMRN_FIFO_CTRLSTA_PREAMBLE_ONE, HV_PM_CTRL, HV_PM_CTRL_K1_CLK_REQ, I217_PLL_CLOCK_GATE_MASK,
    I217_PLL_CLOCK_GATE_REG, I217_RX_CONFIG, I82579_RX_CONFIG, PHY_776_20, PTR_GAP_MASK,
    PTR_GAP_SHIFT, SPEED_10, SPEED_100, SPEED_1000,
};
use crate::eee::{set_eee_pchlan, set_lp_ability};
use crate::emi::write_emi_reg_locked;
use crate::error::{AdResult, Error};
use crate::hw::{Func, Hw, MacInfo, MacType, PhyType};
use crate::io::{Adapter, Call, Feature, Run};
use crate::keeping::{group_keeps, Part};
use crate::k1::k1_workaround_lpt_lp;
use crate::link_info::speed_and_duplex;
use crate::ltr::platform_pm_pch_lpt;

verus! {

/// The inter-packet gap and the receive latency setting of the PHY for a
/// link. At 10 Mb/s half duplex some parts are so aggressive that they cause
/// many collisions, so the gap is widened there and the latency reduced.
pub open spec fn gap_and_latency(spt: bool, speed: u16, duplex: u16) -> (u32, u16) {
    if duplex == HALF_DUPLEX && speed == SPEED_10 {
        (0xFF, 0)
    } else if spt && duplex == FULL_DUPLEX && speed != SPEED_1000 {
        (0x0C, 1)
    } else {
        (0x08, 1)
    }
}

/// Whether the device is one of the I218 that hang without the K1 workaround.
pub open spec fn i218_hangs(device_id: u16) -> bool {
    device_id == E1000_DEV_ID_PCH_LPTLP_I218_LM || device_id == E1000_DEV_ID_PCH_LPTLP_I218_V
        || device_id == E1000_DEV_ID_PCH_I218_LM3 || device_id == E1000_DEV_ID_PCH_I218_V3
}

/// The PHY access functions that watching the link goes through.
#[derive(Clone, Copy)]
pub struct PhyAccess {
    pub read: Func,
    pub read_locked: Func,
    pub write: Func,
    pub write_locked: Func,
}

impl Run {
    /// Rewrites the fields `mask` of a PHY register through the functions of
    /// `f`; an error of the read or of the write is passed over.
    #[verifier::opaque]
    pub open spec fn rewrite_phy_field(
        self,
        f: PhyAccess,
        reg: u32,
        before: u16,
        mask: u16,
        value: u16,
    ) -> (Run, u16) {
        let (s, _, v) = self.fetch(Call::OpReadReg(f.read_locked, reg, before));
        let v = (v & !mask) | value;
        let (s, _) = s.invoke(Call::OpWriteReg(f.write_locked, reg, v));
        (s, v)
    }

    /// Sets the PLL clock gate for the speed, and at 1 Gb/s requests the K1
    /// clock.
    #[verifier::opaque]
    pub open spec fn tune_pll(self, f: PhyAccess, speed: u16) -> Run {
        let gate = if speed == SPEED_100 || speed == SPEED_10 {
            0x3E8u16
        } else {
            0xFAu16
        };
        let (s, v) = self.rewrite_phy_field(
            f,
            I217_PLL_CLOCK_GATE_REG,
            0,
            I217_PLL_CLOCK_GATE_MASK,
            gate,
        );
        if speed == SPEED_1000 {
            let (s, _) = s.rewrite_phy_field(f, HV_PM_CTRL, v, 0, HV_PM_CTRL_K1_CLK_REQ);
            s
        } else {
            s
        }
    }

    /// Sets the transmit pointer gap of the PHY: a fixed value below 1 Gb/s,
    /// and there at least 0x18. A gap that was widened leaves the semaphore
    /// held.
    #[verifier::opaque]
    pub open spec fn tune_ptr_gap(self, f: PhyAccess, speed: u16) -> (Run, AdResult) {
        let (s, r) = self.phy_acquire();
        if r is Err {
            (s, r)
        } else if speed != SPEED_1000 {
            let (s, r) = s.invoke(Call::OpWriteReg(f.write_locked, PHY_776_20, 0xC023));
            s.release_and(r)
        } else {
            let (s, r, data) = s.fetch(Call::OpReadReg(f.read_locked, PHY_776_20, 0));
            if r is Err {
                s.release_and(r)
            } else if (data & PTR_GAP_MASK) >> PTR_GAP_SHIFT < 0x18 {
                let widened = (data & !PTR_GAP_MASK) | 0x60;
                let (s, r) = s.invoke(Call::OpWriteReg(f.write_locked, PHY_776_20, widened));
                if r is Err {
                    s.release_and(r)
                } else {
                    (s, Ok(()))
                }
            } else {
                s.phy_release()
            }
        }
    }

    /// Adapts MAC and PHY to the speed and duplex of a link that is up.
    #[verifier::opaque]
    pub open spec fn tune_link(self, f: PhyAccess) -> (Run, AdResult) {
        let (s, _, speed, duplex) = self.speed_and_duplex(0, 0);
        let (gap, latency) = gap_and_latency(s.since(MacType::Mac_pch_spt), speed, duplex);
        let s = s.modify_register(E1000_TIPG, E1000_TIPG_IPGT_MASK, gap);
        let (s, r) = s.phy_acquire();
        if r is Err {
            (s, r)
        } else {
            let rx_config = if s.is_mac(MacType::Mac_pch2lan) {
                I82579_RX_CONFIG
            } else {
                I217_RX_CONFIG
            };
            let (s, _) = s.write_emi(rx_config, latency);
            let s = if s.since(MacType::Mac_pch_lpt) {
                s.tune_pll(f, speed)
            } else {
                s
            };
            let (s, r) = s.phy_release();
            if r is Err {
                (s, r)
            } else if s.since(MacType::Mac_pch_spt) {
                s.tune_ptr_gap(f, speed)
            } else {
                (s, Ok(()))
            }
        }
    }

    /// Sets the beacon duration to 8 us on Lynx Point and later.
    #[verifier::opaque]
    pub open spec fn set_beacon(self) -> Run {
        if self.since(MacType::Mac_pch_lpt) {
            self.modify_register(
                E1000_FEXTNVM4,
                E1000_FEXTNVM4_BEACON_DURATION_MASK,
                E1000_FEXTNVM4_BEACON_DURATION_8USEC,
            )
        } else {
            self
        }
    }

    /// On Lynx Point and later, settles whether K1 may be switched off: on
    /// Sunrise Point as the PCIe configuration has it, elsewhere as it is,
    /// and never if the device state forbids it.
    #[verifier::opaque]
    pub open spec fn settle_k1_off(self) -> Run {
        if self.since(MacType::Mac_pch_lpt) {
            let (s, v) = self.read_register(E1000_FEXTNVM6);
            let (s, v) = if s.is_mac(MacType::Mac_pch_spt) {
                let (s, cfg) = s.read_register(E1000_PCIEANACFG);
                (
                    s,
                    if cfg & E1000_FEXTNVM6_K1_OFF_ENABLE != 0 {
                        v | E1000_FEXTNVM6_K1_OFF_ENABLE
                    } else {
                        v & !E1000_FEXTNVM6_K1_OFF_ENABLE
                    },
                )
            } else {
                (s, v)
            };
            s.write_register(
                E1000_FEXTNVM6,
                if s.hw.dev_spec.disable_k1_off {
                    v & !E1000_FEXTNVM6_K1_OFF_ENABLE
                } else {
                    v
                },
            )
        } else {
            self
        }
    }

    /// The part of the check that is made whether or not there is a link.
    #[verifier::opaque]
    pub open spec fn check_either_way(self, f: PhyAccess, link: bool) -> (Run, AdResult) {
        let (s, r) = if self.since(MacType::Mac_pch2lan) && link {
            self.tune_link(f)
        } else {
            (self, Ok(()))
        };
        if r is Err {
            (s, r)
        } else {
            let s = s.set_beacon();
            let (s, r) = if i218_hangs(s.hw.device_id) {
                s.k1_workaround(link)
            } else {
                (s, Ok(()))
            };
            if r is Err {
                (s, r)
            } else {
                let (s, r) = if s.since(MacType::Mac_pch_lpt) {
                    s.platform_pm(link)
                } else {
                    (s, Ok(()))
                };
                if r is Err {
                    (s, r)
                } else {
                    (s.with_lp_ability(0).settle_k1_off(), Ok(()))
                }
            }
        }
    }

    /// Sets how many preambles the PHY removes from a packet, which keeps the
    /// MAC from misreading packets in half duplex.
    #[verifier::opaque]
    pub open spec fn set_preambles(self, f: PhyAccess) -> Run {
        let (s, _, v) = self.fetch(Call::OpReadReg(f.read, HV_KMRN_FIFO_CTRLSTA, 0));
        let kept = v & !HV_KMRN_FIFO_CTRLSTA_PREAMBLE_MASK;
        let (s, status) = s.read_register(E1000_STATUS);
        let (s, _) = s.invoke(
            Call::OpWriteReg(
                f.write,
                HV_KMRN_FIFO_CTRLSTA,
                if status & E1000_STATUS_FD != E1000_STATUS_FD {
                    kept | HV_KMRN_FIFO_CTRLSTA_PREAMBLE_ONE
                } else {
                    kept
                },
            ),
        );
        s
    }

    /// Completes the configuration of a link that has come up: checks for a
    /// downshift, settles energy efficient Ethernet, and if the speed was
    /// negotiated configures the collision distance and flow control.
    #[verifier::opaque]
    pub open spec fn finish_link(self) -> (Run, AdResult) {
        let (s, _) = self.invoke(Call::CheckDownshiftGeneric);
        let (s, r) = if s.hw.phy.phy_type.after_82579() {
            s.set_eee()
        } else {
            (s, Ok(()))
        };
        if r is Err {
            (s, r)
        } else if !s.hw.mac.autoneg {
            (s, Err(Error::AutonegNotSet))
        } else {
            match s.hw.mac.ops.config_collision_dist {
                None => (s, Err(Error::NoFunction)),
                Some(op) => {
                    let (s, _) = s.invoke(Call::Op(op));
                    s.invoke(Call::ConfigFcAfterLinkUpGeneric)
                },
            }
        }
    }

    /// The run with the link status no longer to be fetched.
    #[verifier::opaque]
    pub open spec fn link_status_known(self) -> Run {
        self.with_hw(Hw { mac: MacInfo { get_link_status: false, ..self.hw.mac }, ..self.hw })
    }

    /// What follows once the link is known to be up.
    #[verifier::opaque]
    pub open spec fn link_is_up(self, f: PhyAccess) -> (Run, AdResult) {
        let s = self.link_status_known();
        if s.is_mac(MacType::Mac_pch2lan) {
            s.incomplete(Feature::CheckLinkPch2lan)
        } else if s.is_mac(MacType::Mac_pchlan) {
            if s.hw.phy.phy_type == PhyType::Type_82578 {
                s.incomplete(Feature::CheckLink82578)
            } else {
                s.set_preambles(f).finish_link()
            }
        } else {
            s.finish_link()
        }
    }

    /// The check, through the PHY access functions of `f`.
    pub open spec fn check_link_with(self, f: PhyAccess) -> (Run, AdResult) {
        if !self.hw.mac.get_link_status {
            (self, Ok(()))
        } else {
            let (s, a) = self.call(Call::HasLinkGeneric(1, 0, false));
            let link = a.value != 0;
            if a.result is Err {
                (s, a.result)
            } else if s.is_mac(MacType::Mac_pchlan) {
                s.incomplete(Feature::CheckLinkPchlan)
            } else {
                let (s, r) = s.check_either_way(f, link);
                if r is Err {
                    (s, r)
                } else if !link {
                    (s, Ok(()))
                } else {
                    s.link_is_up(f)
                }
            }
        }
    }

    /// The check; fails if a PHY access function is missing.
    pub open spec fn check_for_copper_link(self) -> (Run, AdResult) {
        let ops = self.hw.phy.ops;
        match (ops.read_reg, ops.read_reg_locked, ops.write_reg, ops.write_reg_locked) {
            (Some(read), Some(read_locked), Some(write), Some(write_locked)) => {
                self.check_link_with(PhyAccess { read, read_locked, write, write_locked })
            },
            _ => (self, Err(Error::NoFunction)),
        }
    }
}

/// Without an indication that the status of the link may have changed nothing
/// is done.
pub proof fn law_unchanged_link_is_left(run: Run)
    requires
        !run.hw.mac.get_link_status,
        run.hw.phy.ops.read_reg is Some,
        run.hw.phy.ops.read_reg_locked is Some,
        run.hw.phy.ops.write_reg is Some,
        run.hw.phy.ops.write_reg_locked is Some,
    ensures
        run.check_for_copper_link() == (run, Ok::<(), Error>(())),
{
}

/// Once the link is known to be up its status is no longer to be fetched, and
/// whatever is done from then on is done in that state, until a function that
/// is called says otherwise.
pub proof fn law_link_status_is_known(run: Run)
    ensures
        !run.link_status_known().hw.mac.get_link_status,
        run.link_status_known().trace == run.trace,
        run.link_status_known().hw.phy == run.hw.phy,
{
    reveal(Run::link_status_known);
}

/// After a check that succeeds the link status is still to be fetched exactly
/// if there is no link. If looking for the link fails, the error of that is
/// reported and the status is still to be fetched. The functions that are
/// called must leave the indication alone.
pub proof fn law_link_status_follows_link(run: Run)
    requires
        run.hw.mac.get_link_status,
        run.hw.phy.ops.read_reg is Some,
        run.hw.phy.ops.read_reg_locked is Some,
        run.hw.phy.ops.write_reg is Some,
        run.hw.phy.ops.write_reg_locked is Some,
        !run.call(Call::HasLinkGeneric(1, 0, false)).0.is_mac(MacType::Mac_pchlan),
        !run.check_for_copper_link().0.stalled,
        run.check_for_copper_link().0.calls_keep(Part::LinkStatus),
    ensures
        ({
            let (asked, a) = run.call(Call::HasLinkGeneric(1, 0, false));
            let (s, r) = run.check_for_copper_link();
            &&& r is Ok ==> s.hw.mac.get_link_status == (a.value == 0)
            &&& a.result is Err ==> {
                &&& (s, r) == (asked, a.result)
                &&& s.hw.mac.get_link_status
            }
        }),
{
    broadcast use {
        group_keeps,
        Run::lemma_check_either_way_keeps,
        Run::lemma_set_preambles_keeps,
        Run::lemma_finish_link_keeps,
    };

    reveal(Run::link_is_up);
    reveal(Run::link_status_known);
    let part = Part::LinkStatus;
    let (s, _) = run.check_for_copper_link();
    assert(part.of(s.hw) == if s.hw.mac.get_link_status {
        1int
    } else {
        0
    });
}

/// Once the semaphore was acquired for the transmit pointer gap the last thing
/// done is to release it, whatever comes of the rest, unless a gap at 1 Gb/s
/// that was too small has been widened.
pub proof fn law_ptr_gap_releases_phy(run: Run, f: PhyAccess, speed: u16)
    requires
        run.phy_acquire().1 is Ok,
        !run.tune_ptr_gap(f, speed).0.stalled,
        ({
            let (_, r, data) = run.phy_acquire().0.fetch(
                Call::OpReadReg(f.read_locked, PHY_776_20, 0),
            );
            ||| speed != SPEED_1000
            ||| r is Err
            ||| (data & PTR_GAP_MASK) >> PTR_GAP_SHIFT >= 0x18
            ||| run.tune_ptr_gap(f, speed).1 is Err
        }),
    ensures
        run.tune_ptr_gap(f, speed).0.just_released(),
{
    reveal(Run::call);
    reveal(Run::tune_ptr_gap);
}

/// A transmit pointer gap that was too small is 0x18 afterwards, and the rest
/// of its register is kept; the inter-packet gap fits its field.
pub proof fn law_gaps(data: u16, spt: bool, speed: u16, duplex: u16)
    ensures
        (((data & !PTR_GAP_MASK) | 0x60) & PTR_GAP_MASK) >> PTR_GAP_SHIFT == 0x18,
        ((data & !PTR_GAP_MASK) | 0x60) & !PTR_GAP_MASK == data & !PTR_GAP_MASK,
        gap_and_latency(spt, speed, duplex).0 <= E1000_TIPG_IPGT_MASK,
{
    assert((((data & !0x0FFC) | 0x60) & 0x0FFC) >> 2u16 == 0x18 && ((data & !0x0FFC) | 0x60)
        & !0x0FFC == data & !0x0FFC) by (bit_vector);
}

fn rewrite_phy_field(
    adapter: &mut Adapter,
    f: PhyAccess,
    reg: u32,
    data: &mut u16,
    mask: u16,
    value: u16,
)
    requires
        old(adapter).wf(),
    ensures
        final(adapter).wf(),
        (final(adapter)@, *final(data)) == old(adapter)@.rewrite_phy_field(
            f,
            reg,
            *old(data),
            mask,
            value,
        ),
{
    reveal(Run::rewrite_phy_field);
    let call = Call::OpReadReg(f.read_locked, reg, *data);
    let _ = adapter.fetch(call, data);
    *data = (*data & !mask) | value;
    let _ = adapter.invoke(Call::OpWriteReg(f.write_locked, reg, *data));
}

fn tune_pll(adapter: &mut Adapter, f: PhyAccess, speed: u16)
    requires
        old(adapter).wf(),
    ensures
        final(adapter).wf(),
        final(adapter)@ == old(adapter)@.tune_pll(f, speed),
{
    reveal(Run::tune_pll);
    let mut phy_reg: u16 = 0;
    let gate: u16 = if speed == SPEED_100 || speed == SPEED_10 {
        0x3E8
    } else {
        0xFA
    };
    rewrite_phy_field(
        adapter,
        f,
        I217_PLL_CLOCK_GATE_REG,
        &mut phy_reg,
        I217_PLL_CLOCK_GATE_MASK,
        gate,
    );
    if speed == SPEED_1000 {
        rewrite_phy_field(adapter, f, HV_PM_CTRL, &mut phy_reg, 0, HV_PM_CTRL_K1_CLK_REQ);
    }
}

fn tune_ptr_gap(adapter: &mut Adapter, f: PhyAccess, speed: u16) -> (res: AdResult)
    requires
        old(adapter).wf(),
    ensures
        final(adapter).wf(),
        (final(adapter)@, res) == old(adapter)@.tune_ptr_gap(f, speed),
{
    reveal(Run::tune_ptr_gap);
    if let Err(e) = adapter.phy_acquire() {
        return Err(e);
    }
    if speed != SPEED_1000 {
        let res = adapter.invoke(Call::OpWriteReg(f.write_locked, PHY_776_20, 0xC023));
        return adapter.release_and(res);
    }
    let mut data: u16 = 0;
    if let Err(e) = adapter.fetch(Call::OpReadReg(f.read_locked, PHY_776_20, 0), &mut data) {
        return adapter.release_and(Err(e));
    }
    let ptr_gap: u16 = (data & PTR_GAP_MASK) >> PTR_GAP_SHIFT;
    if ptr_gap < 0x18 {
        data = (data & !PTR_GAP_MASK) | 0x60;
        if let Err(e) = adapter.invoke(Call::OpWriteReg(f.write_locked, PHY_776_20, data)) {
            return adapter.release_and(Err(e));
        }
        Ok(())
    } else {
        adapter.phy_release()
    }
}

fn tune_link(adapter: &mut Adapter, f: PhyAccess) -> (res: AdResult)
    requires
        old(adapter).wf(),
    ensures
        final(adapter).wf(),
        (final(adapter)@, res) == old(adapter)@.tune_link(f),
{
    reveal(Run::tune_link);
    let mut speed: u16 = 0;
    let mut duplex: u16 = 0;
    let _ = speed_and_duplex(adapter, &mut speed, &mut duplex);
    let (gap, latency): (u32, u16) = if duplex == HALF_DUPLEX && speed == SPEED_10 {
        (0xFF, 0)
    } else if adapter.mac_since(MacType::Mac_pch_spt) && duplex == FULL_DUPLEX && speed
        != SPEED_1000 {
        (0x0C, 1)
    } else {
        (0x08, 1)
    };
    adapter.modify_register(E1000_TIPG, E1000_TIPG_IPGT_MASK, gap);
    if let Err(e) = adapter.phy_acquire() {
        return Err(e);
    }
    let rx_config: u16 = if adapter.is_mac(MacType::Mac_pch2lan) {
        I82579_RX_CONFIG
    } else {
        I217_RX_CONFIG
    };
    let _ = write_emi_reg_locked(adapter, rx_config, latency);
    if adapter.mac_since(MacType::Mac_pch_lpt) {
        tune_pll(adapter, f, speed);
    }
    if let Err(e) = adapter.phy_release() {
        return Err(e);
    }
    if adapter.mac_since(MacType::Mac_pch_spt) {
        return tune_ptr_gap(adapter, f, speed);
    }
    Ok(())
}

fn set_beacon(adapter: &mut Adapter)
    requires
        old(adapter).wf(),
    ensures
        final(adapter).wf(),
        final(adapter)@ == old(adapter)@.set_beacon(),
{
    reveal(Run::set_beacon);
    if adapter.mac_since(MacType::Mac_pch_lpt) {
        adapter.modify_register(
            E1000_FEXTNVM4,
            E1000_FEXTNVM4_BEACON_DURATION_MASK,
            E1000_FEXTNVM4_BEACON_DURATION_8USEC,
        );
    }
}

fn settle_k1_off(adapter: &mut Adapter)
    requires
        old(adapter).wf(),
    ensures
        final(adapter).wf(),
        final(adapter)@ == old(adapter)@.settle_k1_off(),
{
    reveal(Run::settle_k1_off);
    if adapter.mac_since(MacType::Mac_pch_lpt) {
        let mut v: u32 = adapter.read_register(E1000_FEXTNVM6);
        if adapter.is_mac(MacType::Mac_pch_spt) {
            let cfg = adapter.read_register(E1000_PCIEANACFG);
            if cfg & E1000_FEXTNVM6_K1_OFF_ENABLE != 0 {
                v = v | E1000_FEXTNVM6_K1_OFF_ENABLE;
            } else {
                v = v & !E1000_FEXTNVM6_K1_OFF_ENABLE;
            }
        }
        if adapter.hw.dev_spec.disable_k1_off {
            v = v & !E1000_FEXTNVM6_K1_OFF_ENABLE;
        }
        adapter.write_register(E1000_FEXTNVM6, v);
    }
}

fn check_either_way(adapter: &mut Adapter, f: PhyAccess, link: bool) -> (res: AdResult)
    requires
        old(adapter).wf(),
    ensures
        final(adapter).wf(),
        (final(adapter)@, res) == old(adapter)@.check_either_way(f, link),
{
    reveal(Run::check_either_way);
    if adapter.mac_since(MacType::Mac_pch2lan) && link {
        if let Err(e) = tune_link(adapter, f) {
            return Err(e);
        }
    }
    set_beacon(adapter);
    let id: u16 = adapter.hw.device_id;
    if id == E1000_DEV_ID_PCH_LPTLP_I218_LM || id == E1000_DEV_ID_PCH_LPTLP_I218_V || id
        == E1000_DEV_ID_PCH_I218_LM3 || id == E1000_DEV_ID_PCH_I218_V3 {
        if let Err(e) = k1_workaround_lpt_lp(adapter, link) {
            return Err(e);
        }
    }
    if adapter.mac_since(MacType::Mac_pch_lpt) {
        if let Err(e) = platform_pm_pch_lpt(adapter, link) {
            return Err(e);
        }
    }
    set_lp_ability(adapter, 0);
    settle_k1_off(adapter);
    Ok(())
}

fn set_preambles(adapter: &mut Adapter, f: PhyAccess)
    requires
        old(adapter).wf(),
    ensures
        final(adapter).wf(),
        final(adapter)@ == old(adapter)@.set_preambles(f),
{
    reveal(Run::set_preambles);
    let mut phy_reg: u16 = 0;
    let _ = adapter.fetch(Call::OpReadReg(f.read, HV_KMRN_FIFO_CTRLSTA, 0), &mut phy_reg);
    phy_reg = phy_reg & !HV_KMRN_FIFO_CTRLSTA_PREAMBLE_MASK;
    if adapter.read_register(E1000_STATUS) & E1000_STATUS_FD != E1000_STATUS_FD {
        phy_reg = phy_reg | HV_KMRN_FIFO_CTRLSTA_PREAMBLE_ONE;
    }
    let _ = adapter.invoke(Call::OpWriteReg(f.write, HV_KMRN_FIFO_CTRLSTA, phy_reg));
}

fn finish_link(adapter: &mut Adapter) -> (res: AdResult)
    requires
        old(adapter).wf(),
    ensures
        final(adapter).wf(),
        (final(adapter)@, res) == old(adapter)@.finish_link(),
{
    reveal(Run::finish_link);
    // A downshift has to be checked for right after the link comes up.
    let _ = adapter.invoke(Call::CheckDownshiftGeneric);
    if adapter.hw.phy.phy_type.is_after_82579() {
        if let Err(e) = set_eee_pchlan(adapter) {
            return Err(e);
        }
    }
    if !adapter.hw.mac.autoneg {
        return Err(Error::AutonegNotSet);
    }
    match adapter.hw.mac.ops.config_collision_dist {
        None => Err(Error::NoFunction),
        Some(op) => {
            let _ = adapter.invoke(Call::Op(op));
            adapter.invoke(Call::ConfigFcAfterLinkUpGeneric)
        },
    }
}

fn link_status_known(adapter: &mut Adapter)
    requires
        old(adapter).wf(),
    ensures
        final(adapter).wf(),
        final(adapter)@ == old(adapter)@.link_status_known(),
{
    reveal(Run::link_status_known);
    adapter.hw.mac.get_link_status = false;
}

fn link_is_up(adapter: &mut Adapter, f: PhyAccess) -> (res: AdResult)
    requires
        old(adapter).wf(),
    ensures
        final(adapter).wf(),
        (final(adapter)@, res) == old(adapter)@.link_is_up(f),
{
    reveal(Run::link_is_up);
    link_status_known(adapter);
    if adapter.is_mac(MacType::Mac_pch2lan) {
        return adapter.incomplete(Feature::CheckLinkPch2lan);
    }
    if adapter.is_mac(MacType::Mac_pchlan) {
        if adapter.hw.phy.phy_type == PhyType::Type_82578 {
            return adapter.incomplete(Feature::CheckLink82578);
        }
        set_preambles(adapter, f);
    }
    finish_link(adapter)
}

/// Checks whether the link status has changed. If the link is up, MAC and PHY
/// are adapted to its speed and duplex, and its configuration is completed.
pub fn check_for_copper_link_ich8lan(adapter: &mut Adapter) -> (res: AdResult)
    requires
        old(adapter).wf(),
    ensures
        final(adapter).wf(),
        (final(adapter)@, res) == old(adapter)@.check_for_copper_link(),
{
    let ops = adapter.hw.phy.ops;
    let f: PhyAccess = match (
        ops.read_reg,
        ops.read_reg_locked,
        ops.write_reg,
        ops.write_reg_locked,
    ) {
        (Some(read), Some(read_locked), Some(write), Some(write_locked)) => {
            PhyAccess { read, read_locked, write, write_locked }
        },
        _ => {
            return Err(Error::NoFunction);
        },
    };
    // The PHY is asked only after a link status change or a receive sequence
    // error has been signalled.
    if !adapter.hw.mac.get_link_status {
        return Ok(());
    }
    let a = adapter.call(Call::HasLinkGeneric(1, 0, false));
    let link: bool = a.value != 0;
    if let Err(e) = a.result {
        return Err(e);
    }
    if adapter.is_mac(MacType::Mac_pchlan) {
        return adapter.incomplete(Feature::CheckLinkPchlan);
    }
    if let Err(e) = check_either_way(adapter, f, link) {
        return Err(e);
    }
    if !link {
        return Ok(());
    }
    link_is_up(adapter, f)
}

} // verus!
