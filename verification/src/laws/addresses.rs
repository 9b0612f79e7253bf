//! Receive addresses and the multicast table.

use vstd::prelude::*;
use crate::bits::lemma_address_bits;
use crate::error::Error;
use crate::events::group_events;
use crate::io::{Action, Call, Run};
use crate::mcast::bm_mta;
use crate::resume::group_resumes;

verus! {

/// The low register of a receive address: its first four bytes, the first one
/// lowest.
pub open spec fn low_register(addr: Seq<u8>) -> u32 {
    (addr[0] + 0x100 * addr[1] + 0x1_0000 * addr[2] + 0x100_0000 * addr[3]) as u32
}

/// The high register: the last two bytes, and the valid bit unless the address
/// is all zeros.
pub open spec fn high_register(addr: Seq<u8>) -> u32 {
    let zero = addr[0] == 0 && addr[1] == 0 && addr[2] == 0 && addr[3] == 0 && addr[4] == 0
        && addr[5] == 0;
    (addr[4] + 0x100 * addr[5] + if zero {
        0int
    } else {
        0x8000_0000
    }) as u32
}

/// Setting a receive address: entry 0 is written to its own registers, later
/// ones to those of the shared addresses, unless the management engine holds
/// them; success then means that both registers read back as written. Which
/// entries it leaves to the host is said by three bits of the firmware status:
/// 0 stands for all, 1 for none, otherwise it is the last.
pub proof fn law_address_is_set(run: Run, addr: Seq<u8>, index: usize)
    requires
        addr.len() == 6,
        !run.rar_set(addr, index).0.stalled,
    ensures
        ({
            let (end, r) = run.rar_set(addr, index);
            let (low, high) = (low_register(addr), high_register(addr));
            let (s, fwsm) = run.read_register(0x5B54);
            let lock = (fwsm / 0x80) % 8;
            let from = run.len();
            let (ral, rah) = (
                (0x5408 + 8 * (index - 1)) as u32,
                (0x540C + 8 * (index - 1)) as u32,
            );
            let beyond = index >= run.hw.mac.rar_entry_count;
            &&& index == 0 ==> {
                &&& r is Ok
                &&& end.trace == run.trace.push(Action::WriteRegister(0x5400, low)).push(
                    Action::WriteFlush,
                ).push(Action::WriteRegister(0x5404, high)).push(Action::WriteFlush)
            }
            &&& index != 0 && beyond ==> (end, r) == (run, Ok::<(), Error>(()))
            &&& index != 0 && !beyond && lock == 1 ==> (end, r) == (
                s,
                Err::<(), Error>(Error::ReceiveAddress(index)),
            )
            &&& index != 0 && !beyond && lock > 1 && index > lock ==> (end, r) == (
                s,
                Ok::<(), Error>(()),
            )
            &&& index != 0 && !beyond && (lock == 0 || (lock > 1 && index <= lock)) && r is Ok ==> {
                &&& end.did(from, Action::WriteRegister(ral, low))
                &&& end.did(from, Action::WriteRegister(rah, high))
                &&& end.saw(from, ral, low)
                &&& end.saw(from, rah, high)
            }
        }),
{
    broadcast use {
        group_resumes,
        group_events,
        Run::law_write_shared_resumes,
        Run::law_acquire_swflag_resumes,
        Run::law_release_swflag_resumes,
    };

    reveal(Run::rar_set);
    reveal(Run::write_shared);
    run.lemma_start();
    let fwsm = run.read_register(0x5B54).1;
    lemma_address_bits(fwsm, (addr[4] + 0x100 * addr[5]) as u32);
    assert(low_register(addr) == crate::rar::address_low(addr) as u32);
    assert(high_register(addr) == crate::rar::rar_high(addr));
    if index == 0 {
        reveal(Run::act);
    }
}

/// Entry `i` of the multicast table is at registers 128 + 2i and the next on
/// page 800 of the PHY.
pub proof fn law_mta_registers(i: int)
    requires
        0 <= i < 128,
    ensures
        bm_mta(i) == (128 + 2 * i) % 32 + 800 * 32 + ((128 + 2 * i) / 32) * 0x20_0000,
{
    lemma_address_bits(0, (128 + i * 2) as u32);
}

/// Updating the multicast list has the list of the MAC updated, and copies the
/// whole table to the PHY, under the semaphore and with access to the wakeup
/// registers of the PHY meanwhile.
pub proof fn law_multicast_list(run: Run, count: u32)
    requires
        !run.update_mc_addr_list(count).0.stalled,
        run.update_mc_addr_list(count).1 is Ok,
    ensures
        ({
            let end = run.update_mc_addr_list(count).0;
            let s = run.call(Call::UpdateMcAddrListGeneric(count)).0;
            let t = s.call(Call::PhyAcquire).0;
            let (u, a) = t.call(Call::EnablePhyWakeupRegAccessBm(0));
            &&& end.calls_at(run.len(), Call::UpdateMcAddrListGeneric(count))
            &&& end.called(run.len(), Call::PhyAcquire)
            &&& end.called(run.len(), Call::EnablePhyWakeupRegAccessBm(0))
            &&& u.hw.phy.ops.write_reg_page is Some ==> {
                let f = u.hw.phy.ops.write_reg_page->0;
                let (w, r) = u.copy_mta(f, 0, u.hw.mac.mta_reg_count as int);
                &&& r is Ok
                &&& end.continues(w)
                &&& end.called(run.len(), Call::DisablePhyWakeupRegAccessBm(a.value as u16))
            }
            &&& end.calls_at(end.len() - 1, Call::PhyRelease)
        }),
{
    broadcast use {
        group_resumes,
        group_events,
        Run::law_copy_mta_resumes,
        Run::law_copy_mta_to_phy_resumes,
    };

    reveal(Run::update_mc_addr_list);
    reveal(Run::copy_mta_to_phy);
    run.lemma_start();
    let end = run.update_mc_addr_list(count).0;
    let s = run.call(Call::UpdateMcAddrListGeneric(count)).0;
    let t = s.call(Call::PhyAcquire).0;
    let u = t.call(Call::EnablePhyWakeupRegAccessBm(0)).0;
    run.lemma_was_called(Call::UpdateMcAddrListGeneric(count));
    assert(end.continues(s)) by {
        s.lemma_start();
    }
    end.lemma_kept(s);
    assert(end.trace[run.len()] == s.trace[run.len()]);
    if u.hw.phy.ops.write_reg_page is Some {
        let f = u.hw.phy.ops.write_reg_page->0;
        let w = u.copy_mta(f, 0, u.hw.mac.mta_reg_count as int).0;
        assert(end.continues(w)) by {
            w.lemma_start();
        }
    }
}

/// A shared address is written with the software flag held, the low register
/// before the high, and the flag is released before both are read back; one
/// that does not read back is an error, and so is not getting the flag, with
/// which nothing is written.
pub proof fn law_shared_address(run: Run, i: int, low: u32, high: u32, index: usize)
    ensures
        ({
            let (end, r) = run.write_shared(i, low, high, index);
            let (ral, rah) = ((0x5408 + 8 * i) as u32, (0x540C + 8 * i) as u32);
            let lost = Err::<(), Error>(Error::ReceiveAddress(index));
            let (s, held) = run.acquire_swflag();
            let t = s.act(Action::WriteRegister(ral, low)).act(Action::WriteFlush).act(
                Action::WriteRegister(rah, high),
            ).act(Action::WriteFlush).release_swflag();
            let (u, a) = t.read_register(ral);
            let (v, b) = u.read_register(rah);
            &&& held is Err ==> (end, r) == (s, held)
            &&& held is Ok && a != low ==> (end, r) == (u, lost)
            &&& held is Ok && a == low && b != high ==> (end, r) == (v, lost)
            &&& held is Ok && a == low && b == high ==> end == v && r is Ok
        }),
{
    reveal(Run::write_shared);
}

} // verus!
