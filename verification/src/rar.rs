//! Receive addresses.

use vstd::prelude::*;
use crate::consts::{
    E1000_FWSM, E1000_FWSM_WLOCK_MAC_MASK, E1000_FWSM_WLOCK_MAC_SHIFT, E1000_RAH0, E1000_RAH_AV,
    E1000_RAL0, E1000_SHRAH_PCH_LPT_BASE, E1000_SHRAL_PCH_LPT_BASE,
};
use crate::error::{AdResult, Error};
use crate::io::{Adapter, Feature, Run};
use crate::swflag::{acquire_swflag_ich8lan, release_swflag_ich8lan};

verus! {

/// The first four bytes of an address as a little-endian number.
pub open spec fn address_low(addr: Seq<u8>) -> int {
    addr[0] + addr[1] * 0x100 + addr[2] * 0x1_0000 + addr[3] * 0x100_0000
}

/// The last two bytes of an address as a little-endian number.
pub open spec fn address_high(addr: Seq<u8>) -> int {
    addr[4] + addr[5] * 0x100
}

/// The high register: the last two bytes, and the bit that makes the address
/// valid unless it is zero.
pub open spec fn rar_high(addr: Seq<u8>) -> u32 {
    if address_low(addr) == 0 && address_high(addr) == 0 {
        0
    } else {
        (address_high(addr) as u32) | E1000_RAH_AV
    }
}

/// The registers of a shared receive address.
pub open spec fn shral(i: int) -> u32 {
    (E1000_SHRAL_PCH_LPT_BASE + 8 * i) as u32
}

pub open spec fn shrah(i: int) -> u32 {
    (E1000_SHRAH_PCH_LPT_BASE + 8 * i) as u32
}

/// The number of shared receive addresses that the management engine leaves
/// to the host: 0 stands for all of them, 1 for none.
pub open spec fn wlock(fwsm: u32) -> u32 {
    (fwsm & E1000_FWSM_WLOCK_MAC_MASK) >> E1000_FWSM_WLOCK_MAC_SHIFT
}

impl Run {
    /// Writes a pair of receive address registers.
    pub open spec fn write_pair(self, ral: u32, low: u32, rah: u32, high: u32) -> Run {
        self.write_register(ral, low).write_flush().write_register(rah, high).write_flush()
    }

    /// Writes shared receive address `i` under the software flag, and fails
    /// as entry `index` if it does not read back.
    #[verifier::opaque]
    pub open spec fn write_shared(self, i: int, low: u32, high: u32, index: usize) -> (
        Run,
        AdResult,
    ) {
        let (s, r) = self.acquire_swflag();
        if r is Err {
            (s, r)
        } else {
            let s = s.write_pair(shral(i), low, shrah(i), high).release_swflag();
            let (s, low_back) = s.read_register(shral(i));
            if low_back != low {
                (s, Err(Error::ReceiveAddress(index)))
            } else {
                let (s, high_back) = s.read_register(shrah(i));
                if high_back != high {
                    (s, Err(Error::ReceiveAddress(index)))
                } else {
                    (s, Ok(()))
                }
            }
        }
    }

    /// Entry 0 is the base receive address. Later entries are shared: one
    /// that the management engine holds is left alone, and if it holds all of
    /// them that is an error. An entry beyond the last is left alone.
    #[verifier::opaque]
    pub open spec fn rar_set(self, addr: Seq<u8>, index: usize) -> (Run, AdResult) {
        let low = address_low(addr) as u32;
        let high = rar_high(addr);
        if index == 0 {
            (self.write_pair(E1000_RAL0, low, E1000_RAH0, high), Ok(()))
        } else if index >= self.hw.mac.rar_entry_count {
            (self, Ok(()))
        } else {
            let (s, fwsm) = self.read_register(E1000_FWSM);
            if wlock(fwsm) == 1 {
                (s, Err(Error::ReceiveAddress(index)))
            } else if wlock(fwsm) == 0 || index <= wlock(fwsm) {
                s.write_shared(index - 1, low, high, index)
            } else {
                (s, Ok(()))
            }
        }
    }
}

/// Every byte of an address can be read back from the registers that hold it.
pub proof fn law_address_decodes(addr: Seq<u8>)
    requires
        addr.len() == 6,
    ensures
        0 <= address_low(addr) <= u32::MAX,
        0 <= address_high(addr) <= 0xFFFF,
        addr[0] == address_low(addr) % 0x100,
        addr[1] == (address_low(addr) / 0x100) % 0x100,
        addr[2] == (address_low(addr) / 0x1_0000) % 0x100,
        addr[3] == address_low(addr) / 0x100_0000,
        addr[4] == address_high(addr) % 0x100,
        addr[5] == address_high(addr) / 0x100,
{
}

/// The high register holds the last two bytes of the address in its low half,
/// and its valid bit is set unless every byte of the address is zero.
pub proof fn law_valid_bit(addr: Seq<u8>)
    requires
        addr.len() == 6,
    ensures
        rar_high(addr) & 0xFFFF == address_high(addr),
        (rar_high(addr) & E1000_RAH_AV == 0) == (forall|i: int| 0 <= i < 6 ==> addr[i] == 0),
{
    law_address_decodes(addr);
    let h = address_high(addr) as u32;
    assert((h | 0x8000_0000) & 0xFFFF == h && (h | 0x8000_0000) & 0x8000_0000 != 0 && 0u32 & 0xFFFF
        == 0 && 0u32 & 0x8000_0000 == 0) by (bit_vector)
        requires
            h <= 0xFFFF,
    ;
    if address_low(addr) == 0 && address_high(addr) == 0 {
        assert forall|i: int| 0 <= i < 6 implies addr[i] == 0 by {}
    }
}

/// An entry beyond the last is left alone, and so is the device; an entry that
/// the management engine holds is not written, and that it holds all of them
/// is an error.
pub proof fn law_locked_entries_untouched(run: Run, addr: Seq<u8>, index: usize)
    requires
        index != 0,
    ensures
        index >= run.hw.mac.rar_entry_count ==> run.rar_set(addr, index) == (
            run,
            Ok::<(), Error>(()),
        ),
        index < run.hw.mac.rar_entry_count ==> {
            let (s, fwsm) = run.read_register(E1000_FWSM);
            &&& wlock(fwsm) == 1 ==> run.rar_set(addr, index) == (
                s,
                Err::<(), Error>(Error::ReceiveAddress(index)),
            )
            &&& wlock(fwsm) > 1 && index > wlock(fwsm) ==> run.rar_set(addr, index) == (
                s,
                Ok::<(), Error>(()),
            )
        },
{
    reveal(Run::rar_set);
}

fn write_pair(adapter: &mut Adapter, ral: u32, low: u32, rah: u32, high: u32)
    requires
        old(adapter).wf(),
    ensures
        final(adapter).wf(),
        final(adapter)@ == old(adapter)@.write_pair(ral, low, rah, high),
{
    adapter.write_register(ral, low);
    adapter.write_flush();
    adapter.write_register(rah, high);
    adapter.write_flush();
}

fn write_shared(adapter: &mut Adapter, i: u32, low: u32, high: u32, index: usize) -> (res: AdResult)
    requires
        old(adapter).wf(),
        i < 0x1_0000,
    ensures
        final(adapter).wf(),
        (final(adapter)@, res) == old(adapter)@.write_shared(i as int, low, high, index),
{
    reveal(Run::write_shared);
    let ral: u32 = E1000_SHRAL_PCH_LPT_BASE + 8 * i;
    let rah: u32 = E1000_SHRAH_PCH_LPT_BASE + 8 * i;
    if let Err(e) = acquire_swflag_ich8lan(adapter) {
        return Err(e);
    }
    write_pair(adapter, ral, low, rah, high);
    let _ = release_swflag_ich8lan(adapter);
    if adapter.read_register(ral) != low {
        return Err(Error::ReceiveAddress(index));
    }
    if adapter.read_register(rah) != high {
        return Err(Error::ReceiveAddress(index));
    }
    Ok(())
}

/// Sets the receive address register at `index` to `addr`, which is in
/// network order. Entry 0 holds the MAC address; the others are shared with
/// the management engine, which can lock them.
pub fn rar_set_pch_lpt(adapter: &mut Adapter, addr: &[u8], index: usize) -> (res: AdResult)
    requires
        old(adapter).wf(),
        addr@.len() >= 6,
    ensures
        final(adapter).wf(),
        (final(adapter)@, res) == old(adapter)@.rar_set(addr@, index),
{
    reveal(Run::rar_set);
    let (a0, a1, a2, a3): (u32, u32, u32, u32) = (
        addr[0] as u32,
        addr[1] as u32,
        addr[2] as u32,
        addr[3] as u32,
    );
    let (a4, a5): (u32, u32) = (addr[4] as u32, addr[5] as u32);
    // The registers hold the bytes in little-endian order.
    let rar_low: u32 = a0 | (a1 << 8) | (a2 << 16) | (a3 << 24);
    let mut rar_high: u32 = a4 | (a5 << 8);
    assert(rar_low == a0 + a1 * 0x100 + a2 * 0x1_0000 + a3 * 0x100_0000 && rar_high == a4 + a5
        * 0x100) by (bit_vector)
        requires
            a0 <= 0xFF,
            a1 <= 0xFF,
            a2 <= 0xFF,
            a3 <= 0xFF,
            a4 <= 0xFF,
            a5 <= 0xFF,
            rar_low == a0 | (a1 << 8) | (a2 << 16) | (a3 << 24),
            rar_high == a4 | (a5 << 8),
    ;
    if rar_low != 0 || rar_high != 0 {
        rar_high = rar_high | E1000_RAH_AV;
    }
    if index == 0 {
        write_pair(adapter, E1000_RAL0, rar_low, E1000_RAH0, rar_high);
        return Ok(());
    }
    if index < adapter.hw.mac.rar_entry_count as usize {
        let fwsm = adapter.read_register(E1000_FWSM);
        let wlock_mac: u32 = (fwsm & E1000_FWSM_WLOCK_MAC_MASK) >> E1000_FWSM_WLOCK_MAC_SHIFT;
        if wlock_mac == 1 {
            return Err(Error::ReceiveAddress(index));
        }
        if wlock_mac == 0 || index <= wlock_mac as usize {
            return write_shared(adapter, (index - 1) as u32, rar_low, rar_high, index);
        }
    }
    Ok(())
}

/// Sets a receive address on an 82579; not implemented.
pub fn rar_set_pch2lan(adapter: &mut Adapter, addr: &[u8], index: usize) -> (res: AdResult)
    requires
        old(adapter).wf(),
    ensures
        final(adapter).wf(),
        (final(adapter)@, res) == old(adapter)@.incomplete(Feature::RarSetPch2lan),
{
    adapter.incomplete(Feature::RarSetPch2lan)
}

} // verus!
