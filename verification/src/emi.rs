//! The extended management interface of the PHY, an indirect register space
//! behind an address and a data register.

use vstd::prelude::*;
use crate::consts::{I82579_EMI_ADDR, I82579_EMI_DATA, MAX_PHY_REG_ADDRESS, PHY_PAGE_SHIFT};
use crate::error::AdResult;
use crate::io::{Action, Adapter, Call, Run};

verus! {

/// The address of register `reg` on `page` of the PHY.
pub open spec fn phy_reg(page: u32, reg: u32) -> u32 {
    (page << PHY_PAGE_SHIFT) | (reg & MAX_PHY_REG_ADDRESS)
}

/// Computes the address of register `reg` on `page` of the PHY.
pub fn fn_phy_reg(page: u32, reg: u32) -> (res: u32)
    ensures
        res == phy_reg(page, reg),
{
    (page << PHY_PAGE_SHIFT) | (reg & MAX_PHY_REG_ADDRESS)
}

/// The last five bits of a register number can be read back from the address,
/// and so can the page, as far as the address can hold it: pages below 2^27
/// wholly. A register number below 32 is its last five bits.
pub proof fn law_phy_reg_decodes(page: u32, reg: u32)
    ensures
        phy_reg(page, reg) & MAX_PHY_REG_ADDRESS == reg & MAX_PHY_REG_ADDRESS,
        phy_reg(page, reg) >> PHY_PAGE_SHIFT == page & 0x07FF_FFFF,
        page < 0x0800_0000 ==> phy_reg(page, reg) >> PHY_PAGE_SHIFT == page,
        reg <= MAX_PHY_REG_ADDRESS ==> reg & MAX_PHY_REG_ADDRESS == reg,
{
    assert({
        let addr = (page << 5) | (reg & 0x1F);
        &&& addr & 0x1F == reg & 0x1F
        &&& addr >> 5 == page & 0x07FF_FFFF
        &&& page < 0x0800_0000 ==> page & 0x07FF_FFFF == page
        &&& reg <= 0x1F ==> reg & 0x1F == reg
    }) by (bit_vector);
}

impl Run {
    /// Writes the address register, then reads or writes the data register.
    #[verifier::opaque]
    pub open spec fn access_emi(self, address: u16, data: u16, read: bool) -> (Run, AdResult, u16) {
        let (s, r) = self.phy_write_reg_locked(I82579_EMI_ADDR, address);
        if r is Err {
            (s, r, data)
        } else if read {
            s.phy_read_reg_locked(I82579_EMI_DATA, data)
        } else {
            let (s, r) = s.phy_write_reg_locked(I82579_EMI_DATA, data);
            (s, r, data)
        }
    }

    pub open spec fn read_emi(self, address: u16, data: u16) -> (Run, AdResult, u16) {
        self.access_emi(address, data, true)
    }

    pub open spec fn write_emi(self, address: u16, data: u16) -> (Run, AdResult) {
        let (s, r, _) = self.access_emi(address, data, false);
        (s, r)
    }
}

/// A register of the extended management interface is reached by two PHY
/// registers: its address is written to one, then the other is read or
/// written; nothing else is done, and without the first there is no second.
pub proof fn law_emi_access(run: Run, address: u16, data: u16)
    requires
        !run.read_emi(address, data).0.stalled,
        run.read_emi(address, data).1 is Ok,
    ensures
        ({
            let s = run.read_emi(address, data).0;
            let n = run.trace.len() as int;
            &&& s.trace.len() == n + 2
            &&& s.trace[n] matches Action::Call(call, _) && call == Call::PhyWriteRegLocked(
                I82579_EMI_ADDR,
                address,
            )
            &&& s.trace[n + 1] matches Action::Call(call, _) && call == Call::PhyReadRegLocked(
                I82579_EMI_DATA,
                data,
            )
        }),
{
    reveal(Run::call);
    reveal(Run::access_emi);
}

/// Reads or writes an extended management interface register. Assumes that
/// the semaphore is held.
pub fn access_emi_reg_locked(
    adapter: &mut Adapter,
    address: u16,
    data: &mut u16,
    read: bool,
) -> (res: AdResult)
    requires
        old(adapter).wf(),
    ensures
        final(adapter).wf(),
        (final(adapter)@, res, *final(data)) == old(adapter)@.access_emi(address, *old(data), read),
{
    reveal(Run::access_emi);
    if let Err(e) = adapter.phy_write_reg_locked(I82579_EMI_ADDR, address) {
        return Err(e);
    }
    if read {
        adapter.phy_read_reg_locked(I82579_EMI_DATA, data)
    } else {
        adapter.phy_write_reg_locked(I82579_EMI_DATA, *data)
    }
}

/// Reads an extended management interface register. Assumes that the
/// semaphore is held.
pub fn read_emi_reg_locked(adapter: &mut Adapter, addr: u16, data: &mut u16) -> (res: AdResult)
    requires
        old(adapter).wf(),
    ensures
        final(adapter).wf(),
        (final(adapter)@, res, *final(data)) == old(adapter)@.read_emi(addr, *old(data)),
{
    access_emi_reg_locked(adapter, addr, data, true)
}

/// Writes an extended management interface register. Assumes that the
/// semaphore is held.
pub fn write_emi_reg_locked(adapter: &mut Adapter, addr: u16, data: u16) -> (res: AdResult)
    requires
        old(adapter).wf(),
    ensures
        final(adapter).wf(),
        (final(adapter)@, res) == old(adapter)@.write_emi(addr, data),
{
    let mut data = data;
    access_emi_reg_locked(adapter, addr, &mut data, false)
}

} // verus!
