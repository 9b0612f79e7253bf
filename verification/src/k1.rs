//! The K1 power state of the link between MAC and PHY.

use vstd::prelude::*;
use crate::consts::{
    E1000_FEXTNVM6, E1000_FEXTNVM6_ENABLE_K1_ENTRY_CONDITION, E1000_FEXTNVM6_REQ_PLL_CLK,
    E1000_KMRNCTRLSTA_K1_CONFIG, E1000_KMRNCTRLSTA_K1_ENABLE, E1000_STATUS, E1000_STATUS_FD,
    E1000_STATUS_SPEED_100, E1000_STATUS_SPEED_1000, I217_INBAND_CTRL,
    I217_INBAND_CTRL_LINK_STAT_TX_TIMEOUT_MASK, I217_INBAND_CTRL_TX_TIMEOUT_500US,
    I217_INBAND_CTRL_TX_TIMEOUT_50US,
};
use crate::error::AdResult;
use crate::io::{Adapter, Call, Feature, Run};

verus! {

impl Run {
    /// At 1 Gb/s: with K1 off in the Kumeran interface, requests the PLL
    /// clock, then restores the Kumeran setting.
    #[verifier::opaque]
    pub open spec fn k1_gigabit(self, fextnvm6: u32) -> (Run, AdResult) {
        let (s, r) = self.phy_acquire();
        if r is Err {
            (s, r)
        } else {
            let (s, r, reg) = s.fetch(Call::ReadKmrnRegLocked(E1000_KMRNCTRLSTA_K1_CONFIG, 0));
            if r is Err {
                s.release_and(r)
            } else {
                let off = Call::WriteKmrnRegLocked(
                    E1000_KMRNCTRLSTA_K1_CONFIG,
                    reg & !E1000_KMRNCTRLSTA_K1_ENABLE,
                );
                let (s, r) = s.invoke(off);
                if r is Err {
                    s.release_and(r)
                } else {
                    let s = s.usec_delay(10).write_register(
                        E1000_FEXTNVM6,
                        fextnvm6 | E1000_FEXTNVM6_REQ_PLL_CLK,
                    );
                    let (s, r) = s.invoke(
                        Call::WriteKmrnRegLocked(E1000_KMRNCTRLSTA_K1_CONFIG, reg),
                    );
                    s.release_and(r)
                }
            }
        }
    }

    /// Without a link, or below 1 Gb/s: withdraws the PLL clock request, and
    /// on early PHY revisions sets the transmit timeout of a 10 Mb/s or a
    /// 100 Mb/s half-duplex link.
    #[verifier::opaque]
    pub open spec fn k1_slow(self, link: bool, fextnvm6: u32, status: u32) -> (Run, AdResult) {
        let base = fextnvm6 & !E1000_FEXTNVM6_REQ_PLL_CLK;
        let at_100 = status & E1000_STATUS_SPEED_100 != 0;
        if self.hw.phy.revision > 5 || !link || (at_100 && status & E1000_STATUS_FD != 0) {
            (self.write_register(E1000_FEXTNVM6, base), Ok(()))
        } else {
            let (s, r, reg) = self.phy_read_reg(I217_INBAND_CTRL, 0);
            if r is Err {
                (s, r)
            } else {
                let kept = reg & !I217_INBAND_CTRL_LINK_STAT_TX_TIMEOUT_MASK;
                let timeout = if at_100 {
                    I217_INBAND_CTRL_TX_TIMEOUT_50US
                } else {
                    I217_INBAND_CTRL_TX_TIMEOUT_500US
                };
                let entry = if at_100 {
                    base & !E1000_FEXTNVM6_ENABLE_K1_ENTRY_CONDITION
                } else {
                    base | E1000_FEXTNVM6_ENABLE_K1_ENTRY_CONDITION
                };
                let (s, _) = s.phy_write_reg(I217_INBAND_CTRL, kept | timeout);
                (s.write_register(E1000_FEXTNVM6, entry), Ok(()))
            }
        }
    }

    #[verifier::opaque]
    pub open spec fn k1_workaround(self, link: bool) -> (Run, AdResult) {
        let (s, fextnvm6) = self.read_register(E1000_FEXTNVM6);
        let (s, status) = s.read_register(E1000_STATUS);
        if link && status & E1000_STATUS_SPEED_1000 != 0 {
            s.k1_gigabit(fextnvm6)
        } else {
            s.k1_slow(link, fextnvm6, status)
        }
    }
}

fn k1_gigabit(adapter: &mut Adapter, fextnvm6: u32) -> (res: AdResult)
    requires
        old(adapter).wf(),
    ensures
        final(adapter).wf(),
        (final(adapter)@, res) == old(adapter)@.k1_gigabit(fextnvm6),
{
    reveal(Run::k1_gigabit);
    if let Err(e) = adapter.phy_acquire() {
        return Err(e);
    }
    let mut reg: u16 = 0;
    if let Err(e) = adapter.fetch(Call::ReadKmrnRegLocked(E1000_KMRNCTRLSTA_K1_CONFIG, 0), &mut reg) {
        return adapter.release_and(Err(e));
    }
    if let Err(e) = adapter.invoke(
        Call::WriteKmrnRegLocked(E1000_KMRNCTRLSTA_K1_CONFIG, reg & !E1000_KMRNCTRLSTA_K1_ENABLE),
    ) {
        return adapter.release_and(Err(e));
    }
    adapter.usec_delay(10);
    adapter.write_register(E1000_FEXTNVM6, fextnvm6 | E1000_FEXTNVM6_REQ_PLL_CLK);
    let res = adapter.invoke(Call::WriteKmrnRegLocked(E1000_KMRNCTRLSTA_K1_CONFIG, reg));
    adapter.release_and(res)
}

fn k1_slow(adapter: &mut Adapter, link: bool, fextnvm6: u32, status: u32) -> (res: AdResult)
    requires
        old(adapter).wf(),
    ensures
        final(adapter).wf(),
        (final(adapter)@, res) == old(adapter)@.k1_slow(link, fextnvm6, status),
{
    reveal(Run::k1_slow);
    let mut fextnvm6 = fextnvm6 & !E1000_FEXTNVM6_REQ_PLL_CLK;
    if adapter.hw.phy.revision > 5 || !link || (status & E1000_STATUS_SPEED_100 != 0 && status
        & E1000_STATUS_FD != 0) {
        adapter.write_register(E1000_FEXTNVM6, fextnvm6);
        return Ok(());
    }
    let mut reg: u16 = 0;
    if let Err(e) = adapter.phy_read_reg(I217_INBAND_CTRL, &mut reg) {
        return Err(e);
    }
    reg = reg & !I217_INBAND_CTRL_LINK_STAT_TX_TIMEOUT_MASK;
    if status & E1000_STATUS_SPEED_100 != 0 {
        reg = reg | I217_INBAND_CTRL_TX_TIMEOUT_50US;
        // The K1 entry latency is not extended at 100 Mb/s half duplex.
        fextnvm6 = fextnvm6 & !E1000_FEXTNVM6_ENABLE_K1_ENTRY_CONDITION;
    } else {
        reg = reg | I217_INBAND_CTRL_TX_TIMEOUT_500US;
        // The K1 entry latency is extended at 10 Mb/s.
        fextnvm6 = fextnvm6 | E1000_FEXTNVM6_ENABLE_K1_ENTRY_CONDITION;
    }
    let _ = adapter.phy_write_reg(I217_INBAND_CTRL, reg);
    adapter.write_register(E1000_FEXTNVM6, fextnvm6);
    Ok(())
}

/// At 1 Gb/s, once the semaphore was acquired the last thing done is to
/// release it, whatever comes of the rest.
pub proof fn law_k1_releases_phy(run: Run, fextnvm6: u32)
    requires
        run.phy_acquire().1 is Ok,
        !run.k1_gigabit(fextnvm6).0.stalled,
    ensures
        run.k1_gigabit(fextnvm6).0.just_released(),
{
    reveal(Run::call);
    reveal(Run::k1_gigabit);
}

/// Works around the K1 problems of Lynx Point LP. With K1 on at 1 Gb/s the
/// MAC can miss completion indications, so the clock request stays asserted
/// there; at 10 Mb/s and 100 Mb/s half duplex the transmit timeout is set to
/// avoid hangs.
pub fn k1_workaround_lpt_lp(adapter: &mut Adapter, link: bool) -> (res: AdResult)
    requires
        old(adapter).wf(),
    ensures
        final(adapter).wf(),
        (final(adapter)@, res) == old(adapter)@.k1_workaround(link),
{
    reveal(Run::k1_workaround);
    let fextnvm6 = adapter.read_register(E1000_FEXTNVM6);
    let status = adapter.read_register(E1000_STATUS);
    if link && status & E1000_STATUS_SPEED_1000 != 0 {
        k1_gigabit(adapter, fextnvm6)
    } else {
        k1_slow(adapter, link, fextnvm6, status)
    }
}

/// Disables K1 while the link of an 82577 or 82578 is at 1 Gb/s; not
/// implemented.
pub fn k1_gig_workaround_hv(adapter: &mut Adapter, link: bool) -> (res: AdResult)
    requires
        old(adapter).wf(),
    ensures
        final(adapter).wf(),
        (final(adapter)@, res) == old(adapter)@.incomplete(Feature::K1GigWorkaroundHv),
{
    adapter.incomplete(Feature::K1GigWorkaroundHv)
}

/// Configures the K1 power state; not implemented.
pub fn configure_k1_ich8lan(adapter: &mut Adapter, k1_enable: bool) -> (res: AdResult)
    requires
        old(adapter).wf(),
    ensures
        final(adapter).wf(),
        (final(adapter)@, res) == old(adapter)@.incomplete(Feature::ConfigureK1Ich8lan),
{
    adapter.incomplete(Feature::ConfigureK1Ich8lan)
}

/// Sets the K1 beacon duration of an 82579; not implemented.
pub fn k1_workaround_lv(adapter: &mut Adapter) -> (res: AdResult)
    requires
        old(adapter).wf(),
    ensures
        final(adapter).wf(),
        (final(adapter)@, res) == old(adapter)@.incomplete(Feature::K1WorkaroundLv),
{
    adapter.incomplete(Feature::K1WorkaroundLv)
}

} // verus!
