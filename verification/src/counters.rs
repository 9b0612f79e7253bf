//! The statistics counters, which are cleared by reading them.

use vstd::prelude::*;
use crate::consts::{
    E1000_ALGNERRC, E1000_CEXTERR, E1000_IAC, E1000_ICRXOC, E1000_MGTPDC, E1000_MGTPRC,
    E1000_MGTPTC, E1000_RXERRC, E1000_TNCRS, E1000_TSCTC, E1000_TSCTFC, HV_COLC_LOWER,
    HV_COLC_UPPER, HV_DC_LOWER, HV_DC_UPPER, HV_ECOL_LOWER, HV_ECOL_UPPER, HV_LATECOL_LOWER,
    HV_LATECOL_UPPER, HV_MCC_LOWER, HV_MCC_UPPER, HV_SCC_LOWER, HV_SCC_UPPER, HV_STATS_PAGE,
    HV_TNCRS_LOWER, HV_TNCRS_UPPER, IGP_PAGE_SHIFT,
};
use crate::error::{AdResult, Error};
use crate::hw::Func;
use crate::io::{Action, Adapter, Call, Run};

verus! {

/// The counters of the MAC that are particular to this family.
pub open spec fn mac_counters() -> Seq<u32> {
    seq![
        E1000_ALGNERRC,
        E1000_RXERRC,
        E1000_TNCRS,
        E1000_CEXTERR,
        E1000_TSCTC,
        E1000_TSCTFC,
        E1000_MGTPRC,
        E1000_MGTPDC,
        E1000_MGTPTC,
        E1000_IAC,
        E1000_ICRXOC,
    ]
}

/// The counters of the PHY.
pub open spec fn phy_counters() -> Seq<u32> {
    seq![
        HV_SCC_UPPER,
        HV_SCC_LOWER,
        HV_ECOL_UPPER,
        HV_ECOL_LOWER,
        HV_MCC_UPPER,
        HV_MCC_LOWER,
        HV_LATECOL_UPPER,
        HV_LATECOL_LOWER,
        HV_COLC_UPPER,
        HV_COLC_LOWER,
        HV_DC_UPPER,
        HV_DC_LOWER,
        HV_TNCRS_UPPER,
        HV_TNCRS_LOWER,
    ]
}

impl Run {
    /// Reads the MAC registers `regs[i..]` in order.
    pub open spec fn read_each(self, regs: Seq<u32>, i: int) -> Run
        decreases regs.len() - i,
    {
        if i >= regs.len() {
            self
        } else {
            self.read_register(regs[i]).0.read_each(regs, i + 1)
        }
    }

    /// Reads the PHY registers `regs[i..]` in order by function `f`, until one
    /// cannot be read. `data` is what the last read gave.
    pub open spec fn read_each_by(self, f: Func, regs: Seq<u32>, i: int, data: u16) -> (
        Run,
        AdResult,
    )
        decreases regs.len() - i,
    {
        if i >= regs.len() {
            (self, Ok(()))
        } else {
            let (s, r, data) = self.fetch(Call::OpReadReg(f, regs[i], data));
            if r is Err {
                (s, r)
            } else {
                s.read_each_by(f, regs, i + 1, data)
            }
        }
    }

    /// Selects a page of PHY registers by way of the table of operations.
    #[verifier::opaque]
    pub open spec fn op_set_page(self, page: u16) -> (Run, AdResult) {
        match self.hw.phy.ops.set_page {
            None => (self, Err(Error::NoFunction)),
            Some(f) => self.invoke(Call::OpSetPage(f, page)),
        }
    }

    /// Reads the counters of the PHY under the semaphore. That their page
    /// cannot be selected, or that there is no function to read them, is no
    /// error; an error of a read leaves the semaphore held.
    #[verifier::opaque]
    pub open spec fn clear_phy_counters(self) -> (Run, AdResult) {
        let (s, r) = self.phy_acquire();
        if r is Err {
            (s, r)
        } else {
            let (s, r) = s.op_set_page(HV_STATS_PAGE << IGP_PAGE_SHIFT);
            if r is Err {
                s.phy_release()
            } else {
                match s.hw.phy.ops.read_reg_page {
                    None => s.phy_release(),
                    Some(f) => {
                        let (s, r) = s.read_each_by(f, phy_counters(), 0, 0);
                        if r is Err {
                            (s, r)
                        } else {
                            s.phy_release()
                        }
                    },
                }
            }
        }
    }

    #[verifier::opaque]
    pub open spec fn clear_counters(self) -> (Run, AdResult) {
        let s = self.invoke(Call::ClearHwCntrsBaseGeneric).0.read_each(mac_counters(), 0);
        if s.hw.phy.phy_type.pch() {
            s.clear_phy_counters()
        } else {
            (s, Ok(()))
        }
    }
}

/// Every counter is read, once and in order, and nothing else is done.
pub proof fn law_each_is_read(run: Run, regs: Seq<u32>, from: int)
    requires
        0 <= from <= regs.len(),
        !run.read_each(regs, from).stalled,
    ensures
        run.read_each(regs, from).trace == run.trace + regs.skip(from).map_values(
            |reg: u32| Action::ReadRegister(reg),
        ),
    decreases regs.len() - from,
{
    reveal(Run::ask);
    if from < regs.len() {
        let s = run.read_register(regs[from]).0;
        law_each_is_read(s, regs, from + 1);
        s.law_read_each_resumes(regs, from + 1);
        s.read_each(regs, from + 1).lemma_kept(s);
    }
    assert(run.read_each(regs, from).trace =~= run.trace + regs.skip(from).map_values(
        |reg: u32| Action::ReadRegister(reg),
    ));
}

/// If clearing the counters of the PHY succeeds, the last thing done is to
/// release the PHY.
pub proof fn law_counters_release_phy(run: Run)
    requires
        run.clear_phy_counters().1 is Ok,
        !run.clear_phy_counters().0.stalled,
    ensures
        run.clear_phy_counters().0.just_released(),
{
    reveal(Run::call);
    reveal(Run::clear_phy_counters);
}

fn clear_mac_counters(adapter: &mut Adapter)
    requires
        old(adapter).wf(),
    ensures
        final(adapter).wf(),
        final(adapter)@ == old(adapter)@.read_each(mac_counters(), 0),
{
    let regs: [u32; 11] = [
        E1000_ALGNERRC,
        E1000_RXERRC,
        E1000_TNCRS,
        E1000_CEXTERR,
        E1000_TSCTC,
        E1000_TSCTFC,
        E1000_MGTPRC,
        E1000_MGTPDC,
        E1000_MGTPTC,
        E1000_IAC,
        E1000_ICRXOC,
    ];
    assert(regs@ =~= mac_counters());
    let mut i: usize = 0;
    while i < 11
        invariant
            adapter.wf(),
            i <= 11,
            regs@ == mac_counters(),
            adapter@.read_each(mac_counters(), i as int) == old(adapter)@.read_each(
                mac_counters(),
                0,
            ),
        decreases 11 - i,
    {
        let _ = adapter.read_register(regs[i]);
        i = i + 1;
    }
}

fn read_phy_counters(adapter: &mut Adapter, f: Func) -> (res: AdResult)
    requires
        old(adapter).wf(),
    ensures
        final(adapter).wf(),
        (final(adapter)@, res) == old(adapter)@.read_each_by(f, phy_counters(), 0, 0),
{
    let regs: [u32; 14] = [
        HV_SCC_UPPER,
        HV_SCC_LOWER,
        HV_ECOL_UPPER,
        HV_ECOL_LOWER,
        HV_MCC_UPPER,
        HV_MCC_LOWER,
        HV_LATECOL_UPPER,
        HV_LATECOL_LOWER,
        HV_COLC_UPPER,
        HV_COLC_LOWER,
        HV_DC_UPPER,
        HV_DC_LOWER,
        HV_TNCRS_UPPER,
        HV_TNCRS_LOWER,
    ];
    assert(regs@ =~= phy_counters());
    let mut phy_data: u16 = 0;
    let mut i: usize = 0;
    while i < 14
        invariant
            adapter.wf(),
            i <= 14,
            regs@ == phy_counters(),
            adapter@.read_each_by(f, phy_counters(), i as int, phy_data)
                == old(adapter)@.read_each_by(f, phy_counters(), 0, 0),
        decreases 14 - i,
    {
        let read = Call::OpReadReg(f, regs[i], phy_data);
        if let Err(e) = adapter.fetch(read, &mut phy_data) {
            return Err(e);
        }
        i = i + 1;
    }
    Ok(())
}

fn op_set_page(adapter: &mut Adapter, page: u16) -> (res: AdResult)
    requires
        old(adapter).wf(),
    ensures
        final(adapter).wf(),
        (final(adapter)@, res) == old(adapter)@.op_set_page(page),
{
    reveal(Run::op_set_page);
    match adapter.hw.phy.ops.set_page {
        None => Err(Error::NoFunction),
        Some(f) => adapter.invoke(Call::OpSetPage(f, page)),
    }
}

fn clear_phy_counters(adapter: &mut Adapter) -> (res: AdResult)
    requires
        old(adapter).wf(),
    ensures
        final(adapter).wf(),
        (final(adapter)@, res) == old(adapter)@.clear_phy_counters(),
{
    reveal(Run::clear_phy_counters);
    if let Err(e) = adapter.phy_acquire() {
        return Err(e);
    }
    if op_set_page(adapter, HV_STATS_PAGE << IGP_PAGE_SHIFT).is_err() {
        return adapter.phy_release();
    }
    if let Some(f) = adapter.hw.phy.ops.read_reg_page {
        if let Err(e) = read_phy_counters(adapter, f) {
            return Err(e);
        }
    }
    adapter.phy_release()
}

/// Clears the hardware counters: the general ones, those of the MAC family,
/// and those of the PHY.
pub fn clear_hw_cntrs_ich8lan(adapter: &mut Adapter) -> (res: AdResult)
    requires
        old(adapter).wf(),
    ensures
        final(adapter).wf(),
        (final(adapter)@, res) == old(adapter)@.clear_counters(),
{
    reveal(Run::clear_counters);
    let _ = adapter.invoke(Call::ClearHwCntrsBaseGeneric);
    clear_mac_counters(adapter);
    if adapter.hw.phy.phy_type.is_pch() {
        return clear_phy_counters(adapter);
    }
    Ok(())
}

} // verus!
