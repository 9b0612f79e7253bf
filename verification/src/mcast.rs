//! The multicast table of the PHY.

use vstd::prelude::*;
use crate::consts::{BM_WUC_PAGE, MAX_PHY_REG_ADDRESS, PHY_PAGE_SHIFT, PHY_UPPER_SHIFT};
use crate::error::AdResult;
use crate::hw::Func;
use crate::io::{Action, Adapter, Call, Run};

verus! {

/// The address of a PHY register whose number may exceed five bits.
pub open spec fn bm_phy_reg(page: u32, reg: u32) -> u32 {
    (reg & MAX_PHY_REG_ADDRESS) | ((page & 0xFFFF) << PHY_PAGE_SHIFT) | ((reg
        & !MAX_PHY_REG_ADDRESS) << (PHY_UPPER_SHIFT - PHY_PAGE_SHIFT) as u32)
}

/// The first of the two PHY registers that hold entry `i` of the table.
pub open spec fn bm_mta(i: int) -> u32 {
    bm_phy_reg(BM_WUC_PAGE, (128 + i * 2) as u32)
}

impl Run {
    /// Writes entries `i` to `count - 1` of the shadowed table to the PHY, by
    /// function `f`: the lower half of an entry, then the upper half.
    pub open spec fn copy_mta(self, f: Func, i: int, count: int) -> (Run, AdResult)
        decreases count - i,
    {
        if i >= count {
            (self, Ok(()))
        } else {
            let low = (self.hw.mac.mta_shadow[i] as u16) & 0xFFFF;
            let (s, r) = self.invoke(Call::OpWriteReg(f, bm_mta(i), low));
            if r is Err {
                (s, r)
            } else {
                let high = ((s.hw.mac.mta_shadow[i] >> 16) as u16) & 0xFFFF;
                let (s, r) = s.invoke(Call::OpWriteReg(f, (bm_mta(i) + 1) as u32, high));
                if r is Err {
                    (s, r)
                } else {
                    s.copy_mta(f, i + 1, count)
                }
            }
        }
    }

    /// Copies the table to the PHY with access to its wakeup registers enabled
    /// meanwhile. A table of operations without the function to write them is
    /// no error.
    #[verifier::opaque]
    pub open spec fn copy_mta_to_phy(self) -> (Run, AdResult) {
        let (s, r, saved) = self.fetch(Call::EnablePhyWakeupRegAccessBm(0));
        if r is Err {
            (s, r)
        } else {
            match s.hw.phy.ops.write_reg_page {
                None => (s, Ok(())),
                Some(f) => {
                    let (s, r) = s.copy_mta(f, 0, s.hw.mac.mta_reg_count as int);
                    if r is Err {
                        (s, r)
                    } else {
                        let (s, r, _) = s.fetch(Call::DisablePhyWakeupRegAccessBm(saved));
                        (s, r)
                    }
                },
            }
        }
    }

    #[verifier::opaque]
    pub open spec fn update_mc_addr_list(self, count: u32) -> (Run, AdResult) {
        let (s, _) = self.invoke(Call::UpdateMcAddrListGeneric(count));
        let (s, r) = s.phy_acquire();
        if r is Err {
            (s, r)
        } else {
            let (s, r) = s.copy_mta_to_phy();
            s.release_and(r)
        }
    }
}

/// The entries of the table are held by registers of their own: those of a
/// later entry come after those of an earlier one on the same 32-register
/// bank, and a later bank comes after an earlier one.
pub proof fn law_mta_registers_distinct(i: int, j: int)
    requires
        0 <= i < j < 128,
    ensures
        bm_mta(i) + 1 < bm_mta(j),
{
    let a = (128 + i * 2) as u32;
    let b = (128 + j * 2) as u32;
    assert(((a & 0x1F) | ((800u32 & 0xFFFF) << 5) | ((a & !0x1F) << 16)) + 1 < ((b & 0x1F) | ((
    800u32 & 0xFFFF) << 5) | ((b & !0x1F) << 16))) by (bit_vector)
        requires
            a < b,
            a % 2 == 0,
            b % 2 == 0,
            b < 384,
    ;
}

/// The two halves of an entry make up the entry.
pub proof fn law_mta_halves(entry: u32)
    ensures
        ((entry as u16) & 0xFFFF) as u32 | ((((entry >> 16) as u16) & 0xFFFF) as u32) << 16 == entry,
{
    assert(((entry as u16) & 0xFFFF) as u32 | ((((entry >> 16) as u16) & 0xFFFF) as u32) << 16
        == entry) by (bit_vector);
}

/// Whether an operation writes the lower half of entry `i` of the table, as
/// the software state has it at that time, by function `f`.
pub open spec fn writes_low(action: Action, f: Func, i: int) -> bool {
    action matches Action::Call(call, hw) && call == Call::OpWriteReg(
        f,
        bm_mta(i),
        (hw.mac.mta_shadow[i] as u16) & 0xFFFF,
    )
}

/// Whether an operation writes the upper half.
pub open spec fn writes_high(action: Action, f: Func, i: int) -> bool {
    action matches Action::Call(call, hw) && call == Call::OpWriteReg(
        f,
        (bm_mta(i) + 1) as u32,
        ((hw.mac.mta_shadow[i] >> 16) as u16) & 0xFFFF,
    )
}

/// The entire table is written: if copying it succeeds, both halves of every
/// entry have been written, one after the other.
pub proof fn law_whole_table_is_written(run: Run, f: Func, from: int, count: int)
    requires
        0 <= from <= count,
        run.copy_mta(f, from, count).1 is Ok,
        !run.copy_mta(f, from, count).0.stalled,
    ensures
        ({
            let s = run.copy_mta(f, from, count).0;
            &&& s.trace.len() == run.trace.len() + 2 * (count - from)
            &&& forall|i: int|
                #![trigger bm_mta(i)]
                from <= i < count ==> writes_low(s.trace[run.trace.len() + 2 * (i - from)], f, i)
                    && writes_high(s.trace[run.trace.len() + 2 * (i - from) + 1], f, i)
        }),
    decreases count - from,
{
    reveal(Run::call);
    if from < count {
        let low = (run.hw.mac.mta_shadow[from] as u16) & 0xFFFF;
        let (s1, _) = run.invoke(Call::OpWriteReg(f, bm_mta(from), low));
        let high = ((s1.hw.mac.mta_shadow[from] >> 16) as u16) & 0xFFFF;
        let (s2, _) = s1.invoke(Call::OpWriteReg(f, (bm_mta(from) + 1) as u32, high));
        s2.law_copy_mta_resumes(f, from + 1, count);
        let s = s2.copy_mta(f, from + 1, count).0;
        s.lemma_kept(s2);
        law_whole_table_is_written(s2, f, from + 1, count);
        let at = run.trace.len() as int;
        assert(s.trace[at] == s2.trace[at] && s.trace[at + 1] == s2.trace[at + 1]);
    }
}

/// Once the semaphore was acquired the last thing done is to release it,
/// whatever comes of the rest.
pub proof fn law_table_update_releases_phy(run: Run, count: u32)
    requires
        run.invoke(Call::UpdateMcAddrListGeneric(count)).0.phy_acquire().1 is Ok,
        !run.update_mc_addr_list(count).0.stalled,
    ensures
        run.update_mc_addr_list(count).0.just_released(),
{
    reveal(Run::call);
    reveal(Run::update_mc_addr_list);
}

fn bm_mta_reg(i: u32) -> (reg: u32)
    requires
        i < 128,
    ensures
        reg == bm_mta(i as int),
        reg < u32::MAX,
{
    let r: u32 = 128 + i * 2;
    assert((r & 0x1F) | ((800u32 & 0xFFFF) << 5) | ((r & !0x1F) << 16) < 0x0200_0000)
        by (bit_vector)
        requires
            r < 384,
    ;
    (r & MAX_PHY_REG_ADDRESS) | ((BM_WUC_PAGE & 0xFFFF) << PHY_PAGE_SHIFT) | ((r
        & !MAX_PHY_REG_ADDRESS) << (PHY_UPPER_SHIFT - PHY_PAGE_SHIFT))
}

fn copy_mta(adapter: &mut Adapter, f: Func) -> (res: AdResult)
    requires
        old(adapter).wf(),
    ensures
        final(adapter).wf(),
        (final(adapter)@, res) == old(adapter)@.copy_mta(
            f,
            0,
            old(adapter).hw.mac.mta_reg_count as int,
        ),
{
    let count: u32 = adapter.hw.mac.mta_reg_count as u32;
    let mut i: u32 = 0;
    while i < count
        invariant
            adapter.wf(),
            i <= count <= 128,
            count == old(adapter).hw.mac.mta_reg_count,
            adapter@.copy_mta(f, i as int, count as int) == old(adapter)@.copy_mta(
                f,
                0,
                count as int,
            ),
        decreases count - i,
    {
        let reg = bm_mta_reg(i);
        let low: u16 = (adapter.hw.mac.mta_shadow[i as usize] as u16) & 0xFFFF;
        if let Err(e) = adapter.invoke(Call::OpWriteReg(f, reg, low)) {
            return Err(e);
        }
        let high: u16 = ((adapter.hw.mac.mta_shadow[i as usize] >> 16) as u16) & 0xFFFF;
        if let Err(e) = adapter.invoke(Call::OpWriteReg(f, reg + 1, high)) {
            return Err(e);
        }
        i = i + 1;
    }
    Ok(())
}

fn copy_mta_to_phy(adapter: &mut Adapter) -> (res: AdResult)
    requires
        old(adapter).wf(),
    ensures
        final(adapter).wf(),
        (final(adapter)@, res) == old(adapter)@.copy_mta_to_phy(),
{
    reveal(Run::copy_mta_to_phy);
    let mut phy_reg: u16 = 0;
    if let Err(e) = adapter.fetch(Call::EnablePhyWakeupRegAccessBm(0), &mut phy_reg) {
        return Err(e);
    }
    match adapter.hw.phy.ops.write_reg_page {
        None => Ok(()),
        Some(f) => {
            if let Err(e) = copy_mta(adapter, f) {
                return Err(e);
            }
            let disable = Call::DisablePhyWakeupRegAccessBm(phy_reg);
            adapter.fetch(disable, &mut phy_reg)
        },
    }
}

/// Updates the multicast table of the MAC and of the PHY.
pub fn update_mc_addr_list_pch2lan(adapter: &mut Adapter, mc_addr_count: u32) -> (res: AdResult)
    requires
        old(adapter).wf(),
    ensures
        final(adapter).wf(),
        (final(adapter)@, res) == old(adapter)@.update_mc_addr_list(mc_addr_count),
{
    reveal(Run::update_mc_addr_list);
    let _ = adapter.invoke(Call::UpdateMcAddrListGeneric(mc_addr_count));
    if let Err(e) = adapter.phy_acquire() {
        return Err(e);
    }
    let res = copy_mta_to_phy(adapter);
    adapter.release_and(res)
}

} // verus!
