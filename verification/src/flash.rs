//! The flash controller: read and write cycles by hardware sequencing.

use vstd::prelude::*;
use crate::bits::lemma_bytes;
use crate::consts::{
    HSFCTL_FLCGO, HSFCTL_FLCYCLE_MASK, HSFCTL_FLCYCLE_READ, HSFCTL_FLCYCLE_WRITE,
    HSFCTL_FLDBCOUNT_BYTE, HSFCTL_FLDBCOUNT_DWORD, HSFCTL_FLDBCOUNT_MASK, HSFCTL_FLDBCOUNT_WORD,
    HSFSTS_DAEL, HSFSTS_FLCDONE, HSFSTS_FLCERR, HSFSTS_FLCINPROG, HSFSTS_FLDESVALID,
    ICH_FLASH_CYCLE_REPEAT_COUNT, ICH_FLASH_FADDR, ICH_FLASH_FDATA0, ICH_FLASH_HSFCTL,
    ICH_FLASH_HSFSTS, ICH_FLASH_LINEAR_ADDR_MASK, ICH_FLASH_READ_COMMAND_TIMEOUT,
    ICH_FLASH_WRITE_COMMAND_TIMEOUT,
};
use crate::error::{AdResult, Error};
use crate::hw::MacType;
use crate::io::{group_continues, Action, Adapter, Feature, Run};

verus! {

/// What a flash cycle transfers.
#[derive(Clone, Copy, PartialEq, Eq, Structural)]
pub enum Cycle {
    ReadByte,
    ReadWord,
    ReadDword,
    WriteDword(u32),
}

impl Cycle {
    /// The fields of the control register that start the cycle: its kind and
    /// the number of bytes less one.
    pub open spec fn fields(self) -> u16 {
        match self {
            Cycle::ReadByte => HSFCTL_FLDBCOUNT_BYTE | HSFCTL_FLCYCLE_READ,
            Cycle::ReadWord => HSFCTL_FLDBCOUNT_WORD | HSFCTL_FLCYCLE_READ,
            Cycle::ReadDword => HSFCTL_FLDBCOUNT_DWORD | HSFCTL_FLCYCLE_READ,
            Cycle::WriteDword(_) => HSFCTL_FLDBCOUNT_DWORD | HSFCTL_FLCYCLE_WRITE,
        }
    }

    pub open spec fn timeout(self) -> u32 {
        match self {
            Cycle::WriteDword(_) => ICH_FLASH_WRITE_COMMAND_TIMEOUT,
            _ => ICH_FLASH_READ_COMMAND_TIMEOUT,
        }
    }
}

/// How one attempt at a cycle ended.
#[derive(Clone, Copy, PartialEq, Eq, Structural)]
pub enum Attempt {
    /// The cycle completed; for a read, with this data.
    Completed(u32),
    /// The cycle cannot be completed.
    GaveUp,
    /// The cycle failed, and not because it ran out of time; it is tried
    /// again, a limited number of times.
    Failed,
}

impl Run {
    /// Writes the flash status register. From Sunrise Point on it can only be
    /// written together with the control register above it.
    pub open spec fn write_flash_status(self, value: u16) -> Run {
        if self.since(MacType::Mac_pch_spt) {
            self.write_flash_register(ICH_FLASH_HSFSTS, value as u32 & 0xFFFF)
        } else {
            self.write_flash_register16(ICH_FLASH_HSFSTS, value)
        }
    }

    /// Reads the flash control register: alone, or as the upper half of the
    /// doubleword that the status register begins.
    pub open spec fn read_flash_ctrl(self, upper_half: bool) -> (Run, u16) {
        if upper_half {
            let (s, v) = self.read_flash_register(ICH_FLASH_HSFSTS);
            (s, (v >> 16) as u16)
        } else {
            self.read_flash_register16(ICH_FLASH_HSFCTL)
        }
    }

    pub open spec fn write_flash_ctrl(self, upper_half: bool, value: u16) -> Run {
        if upper_half {
            self.write_flash_register(ICH_FLASH_HSFSTS, (value as u32) << 16)
        } else {
            self.write_flash_register16(ICH_FLASH_HSFCTL, value)
        }
    }

    /// Reads the status up to `tries` times, 1 us apart, until no cycle is in
    /// progress; nothing if one still is.
    pub open spec fn poll_flash_idle(self, tries: int) -> (Run, Option<u16>)
        decreases tries,
    {
        if tries <= 0 {
            (self, None)
        } else {
            let (s, sts) = self.read_flash_register16(ICH_FLASH_HSFSTS);
            if sts & HSFSTS_FLCINPROG == 0 {
                (s, Some(sts))
            } else {
                s.usec_delay(1).poll_flash_idle(tries - 1)
            }
        }
    }

    /// Clears the error bits, by writing 1 to them, and waits for a cycle in
    /// progress to end; then sets the done bit. Fails if the flash has no
    /// valid descriptor or the cycle in progress does not end.
    #[verifier::opaque]
    pub open spec fn flash_cycle_init(self) -> (Run, AdResult) {
        let (s, sts) = self.read_flash_register16(ICH_FLASH_HSFSTS);
        if sts & HSFSTS_FLDESVALID == 0 {
            (s, Err(Error::FlashDescriptorInvalid))
        } else {
            let cleared = sts | HSFSTS_FLCERR | HSFSTS_DAEL;
            let s = s.write_flash_status(cleared);
            if cleared & HSFSTS_FLCINPROG == 0 {
                (s.write_flash_status(cleared | HSFSTS_FLCDONE), Ok(()))
            } else {
                let (s, idle) = s.poll_flash_idle(ICH_FLASH_READ_COMMAND_TIMEOUT as int);
                match idle {
                    Some(sts) => (s.write_flash_status(sts | HSFSTS_FLCDONE), Ok(())),
                    None => (s, Err(Error::FlashBusy)),
                }
            }
        }
    }

    /// Reads the status up to `tries` times, 1 us apart, until the cycle is
    /// done, and gives what was read last.
    pub open spec fn poll_flash_done(self, tries: int) -> (Run, u16)
        decreases tries,
    {
        let (s, sts) = self.read_flash_register16(ICH_FLASH_HSFSTS);
        if sts & HSFSTS_FLCDONE != 0 {
            (s, sts)
        } else if tries <= 1 {
            (s.usec_delay(1), sts)
        } else {
            s.usec_delay(1).poll_flash_done(tries - 1)
        }
    }

    /// Starts the cycle that the control register describes and waits for it.
    /// Succeeds if it is done and the controller reports no error.
    #[verifier::opaque]
    pub open spec fn flash_cycle(self, timeout: u32) -> (Run, AdResult) {
        let upper = self.since(MacType::Mac_pch_spt);
        let (s, ctrl) = self.read_flash_ctrl(upper);
        let (s, sts) = s.write_flash_ctrl(upper, ctrl | HSFCTL_FLCGO).poll_flash_done(timeout + 1);
        if sts & HSFSTS_FLCDONE != 0 && sts & HSFSTS_FLCERR == 0 {
            (s, Ok(()))
        } else {
            (s, Err(Error::FlashCycleTimeout))
        }
    }

    /// Whether a cycle reaches the control register as the upper half of the
    /// status doubleword.
    pub open spec fn ctrl_in_upper_half(self, cycle: Cycle) -> bool {
        match cycle {
            Cycle::ReadByte => false,
            Cycle::ReadWord => false,
            Cycle::ReadDword => true,
            Cycle::WriteDword(_) => self.since(MacType::Mac_pch_spt),
        }
    }

    /// Describes a cycle at address `addr` to the controller.
    #[verifier::opaque]
    pub open spec fn set_up_cycle(self, cycle: Cycle, addr: u32) -> Run {
        let upper = self.ctrl_in_upper_half(cycle);
        let (s, ctrl) = self.read_flash_ctrl(upper);
        let kept = ctrl & !(HSFCTL_FLDBCOUNT_MASK | HSFCTL_FLCYCLE_MASK);
        let s = s.write_flash_ctrl(upper, kept | cycle.fields()).write_flash_register(
            ICH_FLASH_FADDR,
            addr,
        );
        match cycle {
            Cycle::WriteDword(data) => s.write_flash_register(ICH_FLASH_FDATA0, data),
            _ => s,
        }
    }

    /// One attempt at a cycle.
    #[verifier::opaque]
    pub open spec fn flash_attempt(self, cycle: Cycle, addr: u32) -> (Run, Attempt) {
        let (s, r) = self.usec_delay(1).flash_cycle_init();
        if r is Err {
            (s, Attempt::GaveUp)
        } else {
            let (s, r) = s.set_up_cycle(cycle, addr).flash_cycle(cycle.timeout());
            if r is Ok {
                match cycle {
                    Cycle::WriteDword(_) => (s, Attempt::Completed(0)),
                    _ => {
                        let (s, data) = s.read_flash_register(ICH_FLASH_FDATA0);
                        (s, Attempt::Completed(data))
                    },
                }
            } else {
                let (s, sts) = s.read_flash_register16(ICH_FLASH_HSFSTS);
                if sts & HSFSTS_FLCERR == 0 && sts & HSFSTS_FLCDONE == 0 {
                    (s, Attempt::GaveUp)
                } else {
                    (s, Attempt::Failed)
                }
            }
        }
    }

    /// A cycle, tried until it completes, is given up, or has failed and been
    /// repeated as often as it may, of which `repeats` are behind. The second
    /// value is the data, or nothing if the cycle did not complete.
    pub open spec fn flash_access(self, cycle: Cycle, addr: u32, repeats: int) -> (Run, Option<u32>)
        decreases ICH_FLASH_CYCLE_REPEAT_COUNT - repeats,
    {
        let (s, attempt) = self.flash_attempt(cycle, addr);
        match attempt {
            Attempt::Completed(data) => (s, Some(data)),
            Attempt::GaveUp => (s, None),
            Attempt::Failed => if repeats >= ICH_FLASH_CYCLE_REPEAT_COUNT {
                (s, None)
            } else {
                s.flash_access(cycle, addr, repeats + 1)
            },
        }
    }

    pub proof fn lemma_poll_flash_idle_continues(self, tries: int)
        ensures
            self.poll_flash_idle(tries).0.continues(self),
        decreases tries,
    {
        broadcast use group_continues;

        self.lemma_start();
        if tries > 0 {
            let (s, _) = self.read_flash_register16(ICH_FLASH_HSFSTS);
            s.usec_delay(1).lemma_poll_flash_idle_continues(tries - 1);
        }
    }

    pub proof fn lemma_poll_flash_done_continues(self, tries: int)
        ensures
            self.poll_flash_done(tries).0.continues(self),
        decreases tries,
    {
        broadcast use group_continues;

        self.lemma_start();
        if tries > 1 {
            let (s, _) = self.read_flash_register16(ICH_FLASH_HSFSTS);
            s.usec_delay(1).lemma_poll_flash_done_continues(tries - 1);
        }
    }
}

fn write_flash_status(adapter: &mut Adapter, value: u16)
    requires
        old(adapter).wf(),
    ensures
        final(adapter).wf(),
        final(adapter)@ == old(adapter)@.write_flash_status(value),
{
    if adapter.mac_since(MacType::Mac_pch_spt) {
        adapter.write_flash_register(ICH_FLASH_HSFSTS, value as u32 & 0xFFFF);
    } else {
        adapter.write_flash_register16(ICH_FLASH_HSFSTS, value);
    }
}

fn read_flash_ctrl(adapter: &mut Adapter, upper_half: bool) -> (ctrl: u16)
    requires
        old(adapter).wf(),
    ensures
        final(adapter).wf(),
        (final(adapter)@, ctrl) == old(adapter)@.read_flash_ctrl(upper_half),
{
    if upper_half {
        (adapter.read_flash_register(ICH_FLASH_HSFSTS) >> 16) as u16
    } else {
        adapter.read_flash_register16(ICH_FLASH_HSFCTL)
    }
}

fn write_flash_ctrl(adapter: &mut Adapter, upper_half: bool, value: u16)
    requires
        old(adapter).wf(),
    ensures
        final(adapter).wf(),
        final(adapter)@ == old(adapter)@.write_flash_ctrl(upper_half, value),
{
    if upper_half {
        adapter.write_flash_register(ICH_FLASH_HSFSTS, (value as u32) << 16);
    } else {
        adapter.write_flash_register16(ICH_FLASH_HSFCTL, value);
    }
}

fn poll_flash_idle(adapter: &mut Adapter) -> (idle: Option<u16>)
    requires
        old(adapter).wf(),
    ensures
        final(adapter).wf(),
        (final(adapter)@, idle) == old(adapter)@.poll_flash_idle(
            ICH_FLASH_READ_COMMAND_TIMEOUT as int,
        ),
{
    let mut left: u32 = ICH_FLASH_READ_COMMAND_TIMEOUT;
    while left > 0
        invariant
            adapter.wf(),
            adapter@.poll_flash_idle(left as int) == old(adapter)@.poll_flash_idle(
                ICH_FLASH_READ_COMMAND_TIMEOUT as int,
            ),
        decreases left,
    {
        let sts = adapter.read_flash_register16(ICH_FLASH_HSFSTS);
        if sts & HSFSTS_FLCINPROG == 0 {
            return Some(sts);
        }
        adapter.usec_delay(1);
        left = left - 1;
    }
    None
}

/// Prepares the flash controller for a new read or write cycle.
pub fn flash_cycle_init_ich8lan(adapter: &mut Adapter) -> (res: AdResult)
    requires
        old(adapter).wf(),
    ensures
        final(adapter).wf(),
        (final(adapter)@, res) == old(adapter)@.flash_cycle_init(),
{
    reveal(Run::flash_cycle_init);
    let sts = adapter.read_flash_register16(ICH_FLASH_HSFSTS);
    if sts & HSFSTS_FLDESVALID == 0 {
        return Err(Error::FlashDescriptorInvalid);
    }
    let cleared: u16 = sts | HSFSTS_FLCERR | HSFSTS_DAEL;
    write_flash_status(adapter, cleared);
    if cleared & HSFSTS_FLCINPROG == 0 {
        write_flash_status(adapter, cleared | HSFSTS_FLCDONE);
        return Ok(());
    }
    match poll_flash_idle(adapter) {
        Some(sts) => {
            write_flash_status(adapter, sts | HSFSTS_FLCDONE);
            Ok(())
        },
        None => Err(Error::FlashBusy),
    }
}

fn poll_flash_done(adapter: &mut Adapter, timeout: u32) -> (sts: u16)
    requires
        old(adapter).wf(),
    ensures
        final(adapter).wf(),
        (final(adapter)@, sts) == old(adapter)@.poll_flash_done(timeout + 1),
{
    let mut left: u32 = timeout;
    loop
        invariant
            adapter.wf(),
            adapter@.poll_flash_done(left + 1) == old(adapter)@.poll_flash_done(timeout + 1),
        decreases left,
    {
        let sts = adapter.read_flash_register16(ICH_FLASH_HSFSTS);
        if sts & HSFSTS_FLCDONE != 0 {
            return sts;
        }
        adapter.usec_delay(1);
        if left == 0 {
            return sts;
        }
        left = left - 1;
    }
}

/// Starts a flash cycle and waits for its completion, for some `timeout` us.
pub fn flash_cycle_ich8lan(adapter: &mut Adapter, timeout: u32) -> (res: AdResult)
    requires
        old(adapter).wf(),
    ensures
        final(adapter).wf(),
        (final(adapter)@, res) == old(adapter)@.flash_cycle(timeout),
{
    reveal(Run::flash_cycle);
    let upper: bool = adapter.mac_since(MacType::Mac_pch_spt);
    let ctrl = read_flash_ctrl(adapter, upper);
    write_flash_ctrl(adapter, upper, ctrl | HSFCTL_FLCGO);
    let sts = poll_flash_done(adapter, timeout);
    if sts & HSFSTS_FLCDONE != 0 && sts & HSFSTS_FLCERR == 0 {
        Ok(())
    } else {
        Err(Error::FlashCycleTimeout)
    }
}

fn set_up_cycle(adapter: &mut Adapter, cycle: Cycle, addr: u32)
    requires
        old(adapter).wf(),
    ensures
        final(adapter).wf(),
        final(adapter)@ == old(adapter)@.set_up_cycle(cycle, addr),
{
    reveal(Run::set_up_cycle);
    let (upper, fields): (bool, u16) = match cycle {
        Cycle::ReadByte => (false, HSFCTL_FLDBCOUNT_BYTE | HSFCTL_FLCYCLE_READ),
        Cycle::ReadWord => (false, HSFCTL_FLDBCOUNT_WORD | HSFCTL_FLCYCLE_READ),
        Cycle::ReadDword => (true, HSFCTL_FLDBCOUNT_DWORD | HSFCTL_FLCYCLE_READ),
        Cycle::WriteDword(_) => (
            adapter.mac_since(MacType::Mac_pch_spt),
            HSFCTL_FLDBCOUNT_DWORD | HSFCTL_FLCYCLE_WRITE,
        ),
    };
    let ctrl = read_flash_ctrl(adapter, upper);
    let kept: u16 = ctrl & !(HSFCTL_FLDBCOUNT_MASK | HSFCTL_FLCYCLE_MASK);
    write_flash_ctrl(adapter, upper, kept | fields);
    adapter.write_flash_register(ICH_FLASH_FADDR, addr);
    if let Cycle::WriteDword(data) = cycle {
        adapter.write_flash_register(ICH_FLASH_FDATA0, data);
    }
}

fn flash_attempt(adapter: &mut Adapter, cycle: Cycle, addr: u32) -> (attempt: Attempt)
    requires
        old(adapter).wf(),
    ensures
        final(adapter).wf(),
        (final(adapter)@, attempt) == old(adapter)@.flash_attempt(cycle, addr),
{
    reveal(Run::flash_attempt);
    adapter.usec_delay(1);
    if flash_cycle_init_ich8lan(adapter).is_err() {
        return Attempt::GaveUp;
    }
    set_up_cycle(adapter, cycle, addr);
    let timeout: u32 = match cycle {
        Cycle::WriteDword(_) => ICH_FLASH_WRITE_COMMAND_TIMEOUT,
        _ => ICH_FLASH_READ_COMMAND_TIMEOUT,
    };
    if flash_cycle_ich8lan(adapter, timeout).is_ok() {
        return match cycle {
            Cycle::WriteDword(_) => Attempt::Completed(0),
            _ => Attempt::Completed(adapter.read_flash_register(ICH_FLASH_FDATA0)),
        };
    }
    let sts = adapter.read_flash_register16(ICH_FLASH_HSFSTS);
    if sts & HSFSTS_FLCERR == 0 && sts & HSFSTS_FLCDONE == 0 {
        Attempt::GaveUp
    } else {
        Attempt::Failed
    }
}

fn flash_access(adapter: &mut Adapter, cycle: Cycle, addr: u32) -> (data: Option<u32>)
    requires
        old(adapter).wf(),
    ensures
        final(adapter).wf(),
        (final(adapter)@, data) == old(adapter)@.flash_access(cycle, addr, 0),
{
    let mut repeats: u32 = 0;
    loop
        invariant
            adapter.wf(),
            repeats <= ICH_FLASH_CYCLE_REPEAT_COUNT,
            adapter@.flash_access(cycle, addr, repeats as int) == old(adapter)@.flash_access(
                cycle,
                addr,
                0,
            ),
        decreases ICH_FLASH_CYCLE_REPEAT_COUNT - repeats,
    {
        match flash_attempt(adapter, cycle, addr) {
            Attempt::Completed(data) => {
                return Some(data);
            },
            Attempt::GaveUp => {
                return None;
            },
            Attempt::Failed => {
                if repeats == ICH_FLASH_CYCLE_REPEAT_COUNT {
                    return None;
                }
                repeats = repeats + 1;
            },
        }
    }
}

impl Run {
    /// The address of a byte of the flash.
    pub open spec fn flash_address(self, offset: u32) -> u32 {
        ((ICH_FLASH_LINEAR_ADDR_MASK & offset) + self.hw.nvm.flash_base_addr) as u32
    }

    /// Reads `size` bytes, 1 or 2, at byte `offset`. A cycle that does not
    /// complete is no error and leaves `data` as it is.
    #[verifier::opaque]
    pub open spec fn read_flash_data(self, offset: u32, size: u32, data: u16) -> (
        Run,
        AdResult,
        u16,
    ) {
        if size < 1 || size > 2 || offset > ICH_FLASH_LINEAR_ADDR_MASK {
            (self, Err(Error::FlashSizeOrOffset), data)
        } else {
            let cycle = if size == 1 {
                Cycle::ReadByte
            } else {
                Cycle::ReadWord
            };
            let (s, found) = self.flash_access(cycle, self.flash_address(offset), 0);
            (
                s,
                Ok(()),
                match found {
                    Some(v) => if size == 1 {
                        (v & 0xFF) as u16
                    } else {
                        (v & 0xFFFF) as u16
                    },
                    None => data,
                },
            )
        }
    }

    /// Reads four bytes at byte `offset`, from Sunrise Point on. A cycle that
    /// does not complete is no error and leaves `data` as it is.
    #[verifier::opaque]
    pub open spec fn read_flash_data32(self, offset: u32, data: u32) -> (Run, AdResult, u32) {
        if offset > ICH_FLASH_LINEAR_ADDR_MASK || !self.since(MacType::Mac_pch_spt) {
            (self, Err(Error::FlashOffsetOrHardware), data)
        } else {
            let (s, found) = self.flash_access(Cycle::ReadDword, self.flash_address(offset), 0);
            (
                s,
                Ok(()),
                match found {
                    Some(v) => v,
                    None => data,
                },
            )
        }
    }

    pub open spec fn read_flash_dword(self, offset: u32, data: u32) -> (Run, AdResult, u32) {
        self.read_flash_data32(offset << 1, data)
    }

    pub open spec fn read_flash_word(self, offset: u32, data: u16) -> (Run, AdResult, u16) {
        self.read_flash_data(offset << 1, 2, data)
    }

    /// Reads a byte, where the controller allows accesses that short; a byte
    /// whose cycle does not complete reads as 0.
    #[verifier::opaque]
    pub open spec fn read_flash_byte(self, offset: u32, data: u8) -> (Run, AdResult, u8) {
        if self.since(MacType::Mac_pch_spt) {
            (self, Err(Error::DwordAccessOnly), data)
        } else {
            let (s, r, word) = self.read_flash_data(offset, 1, 0);
            if r is Err {
                (s, r, data)
            } else {
                (s, Ok(()), word as u8)
            }
        }
    }

    /// Writes four bytes at byte `offset`, of which only Sunrise Point and
    /// later check the range. A cycle that does not complete is no error.
    #[verifier::opaque]
    pub open spec fn write_flash_data32(self, offset: u32, data: u32) -> (Run, AdResult) {
        if self.since(MacType::Mac_pch_spt) && offset > ICH_FLASH_LINEAR_ADDR_MASK {
            (self, Err(Error::FlashOffset))
        } else {
            let (s, _) = self.flash_access(
                Cycle::WriteDword(data),
                self.flash_address(offset),
                0,
            );
            (s, Ok(()))
        }
    }
}

impl Run {
    proof fn lemma_poll_flash_idle_keeps_hw(self, tries: int)
        ensures
            self.poll_flash_idle(tries).0.hw == self.hw,
        decreases tries,
    {
        broadcast use group_continues;

        if tries > 0 {
            let (s, _) = self.read_flash_register16(ICH_FLASH_HSFSTS);
            s.usec_delay(1).lemma_poll_flash_idle_keeps_hw(tries - 1);
        }
    }

    proof fn lemma_poll_flash_done_keeps_hw(self, tries: int)
        ensures
            self.poll_flash_done(tries).0.hw == self.hw,
        decreases tries,
    {
        broadcast use group_continues;

        if tries > 1 {
            let (s, _) = self.read_flash_register16(ICH_FLASH_HSFSTS);
            s.usec_delay(1).lemma_poll_flash_done_keeps_hw(tries - 1);
        }
    }

    proof fn lemma_flash_attempt_keeps_hw(self, cycle: Cycle, addr: u32)
        ensures
            self.flash_attempt(cycle, addr).0.hw == self.hw,
    {
        broadcast use group_continues;

        reveal(Run::flash_attempt);
        reveal(Run::flash_cycle_init);
        reveal(Run::set_up_cycle);
        reveal(Run::flash_cycle);
        let s0 = self.usec_delay(1);
        let (s, sts) = s0.read_flash_register16(ICH_FLASH_HSFSTS);
        s.write_flash_status(
            sts | HSFSTS_FLCERR | HSFSTS_DAEL,
        ).lemma_poll_flash_idle_keeps_hw(ICH_FLASH_READ_COMMAND_TIMEOUT as int);
        assert(s0.flash_cycle_init().0.hw == self.hw);
        let s1 = s0.flash_cycle_init().0.set_up_cycle(cycle, addr);
        assert(s1.hw == self.hw);
        let upper = s1.since(MacType::Mac_pch_spt);
        let (s2, ctrl) = s1.read_flash_ctrl(upper);
        s2.write_flash_ctrl(upper, ctrl | HSFCTL_FLCGO).lemma_poll_flash_done_keeps_hw(
            cycle.timeout() + 1,
        );
    }

    /// A flash access leaves the software state as it is.
    pub proof fn law_flash_access_keeps_hw(self, cycle: Cycle, addr: u32, repeats: int)
        ensures
            self.flash_access(cycle, addr, repeats).0.hw == self.hw,
        decreases ICH_FLASH_CYCLE_REPEAT_COUNT - repeats,
    {
        self.lemma_flash_attempt_keeps_hw(cycle, addr);
        let (s, _) = self.flash_attempt(cycle, addr);
        if repeats < ICH_FLASH_CYCLE_REPEAT_COUNT {
            s.law_flash_access_keeps_hw(cycle, addr, repeats + 1);
        }
    }

    /// Reading and writing the flash leaves the software state as it is.
    pub broadcast proof fn law_read_flash_data_keeps_hw(self, offset: u32, size: u32, data: u16)
        ensures
            (#[trigger] self.read_flash_data(offset, size, data)).0.hw == self.hw,
    {
        reveal(Run::read_flash_data);
        self.law_flash_access_keeps_hw(Cycle::ReadByte, self.flash_address(offset), 0);
        self.law_flash_access_keeps_hw(Cycle::ReadWord, self.flash_address(offset), 0);
    }

    pub broadcast proof fn law_read_flash_data32_keeps_hw(self, offset: u32, data: u32)
        ensures
            (#[trigger] self.read_flash_data32(offset, data)).0.hw == self.hw,
    {
        reveal(Run::read_flash_data32);
        self.law_flash_access_keeps_hw(Cycle::ReadDword, self.flash_address(offset), 0);
    }

    pub broadcast proof fn law_read_flash_byte_keeps_hw(self, offset: u32, data: u8)
        ensures
            (#[trigger] self.read_flash_byte(offset, data)).0.hw == self.hw,
    {
        reveal(Run::read_flash_byte);
        self.law_read_flash_data_keeps_hw(offset, 1, 0);
    }

    /// Writing a dword leaves the software state as it is.
    pub proof fn law_write_flash_data32_keeps_hw(self, offset: u32, data: u32)
        ensures
            self.write_flash_data32(offset, data).0.hw == self.hw,
    {
        reveal(Run::write_flash_data32);
        self.law_flash_access_keeps_hw(Cycle::WriteDword(data), self.flash_address(offset), 0);
    }
}

/// How many cycles were described to the controller: each by writing its
/// address.
pub open spec fn cycles(trace: Seq<Action>) -> int
    decreases trace.len(),
{
    if trace.len() == 0 {
        0
    } else {
        cycles(trace.drop_last()) + if is_cycle(trace.last()) {
            1int
        } else {
            0
        }
    }
}

pub open spec fn is_cycle(action: Action) -> bool {
    action matches Action::WriteFlashRegister(reg, _) && reg == ICH_FLASH_FADDR
}

impl Run {
    /// Whether no attempt at a cycle completes, of those that are made when
    /// `repeats` repeats are behind.
    pub open spec fn never_completes(self, cycle: Cycle, addr: u32, repeats: int) -> bool
        decreases ICH_FLASH_CYCLE_REPEAT_COUNT - repeats,
    {
        let (s, attempt) = self.flash_attempt(cycle, addr);
        match attempt {
            Attempt::Completed(_) => false,
            Attempt::GaveUp => true,
            Attempt::Failed => repeats >= ICH_FLASH_CYCLE_REPEAT_COUNT || s.never_completes(
                cycle,
                addr,
                repeats + 1,
            ),
        }
    }

    broadcast proof fn lemma_act_cycles(self, action: Action)
        ensures
            cycles((#[trigger] self.act(action)).trace) <= cycles(self.trace) + if is_cycle(action) {
                1int
            } else {
                0
            },
    {
        reveal(Run::act);
        assert(self.trace.push(action).drop_last() =~= self.trace);
    }

    broadcast proof fn lemma_ask_cycles(self, action: Action)
        requires
            !is_cycle(action),
        ensures
            cycles((#[trigger] self.ask(action)).0.trace) == cycles(self.trace),
    {
        reveal(Run::ask);
        assert(self.trace.push(action).drop_last() =~= self.trace);
    }

    proof fn lemma_poll_flash_idle_cycles(self, tries: int)
        ensures
            cycles(self.poll_flash_idle(tries).0.trace) <= cycles(self.trace),
        decreases tries,
    {
        broadcast use {Run::lemma_act_cycles, Run::lemma_ask_cycles};

        if tries > 0 {
            let (s, _) = self.read_flash_register16(ICH_FLASH_HSFSTS);
            s.usec_delay(1).lemma_poll_flash_idle_cycles(tries - 1);
        }
    }

    proof fn lemma_poll_flash_done_cycles(self, tries: int)
        ensures
            cycles(self.poll_flash_done(tries).0.trace) <= cycles(self.trace),
        decreases tries,
    {
        broadcast use {Run::lemma_act_cycles, Run::lemma_ask_cycles};

        if tries > 1 {
            let (s, _) = self.read_flash_register16(ICH_FLASH_HSFSTS);
            s.usec_delay(1).lemma_poll_flash_done_cycles(tries - 1);
        }
    }

    proof fn lemma_flash_attempt_cycles(self, cycle: Cycle, addr: u32)
        ensures
            cycles(self.flash_attempt(cycle, addr).0.trace) <= cycles(self.trace) + 1,
    {
        broadcast use {Run::lemma_act_cycles, Run::lemma_ask_cycles};

        reveal(Run::flash_attempt);
        reveal(Run::flash_cycle_init);
        reveal(Run::set_up_cycle);
        reveal(Run::flash_cycle);
        let s0 = self.usec_delay(1);
        let (s, sts) = s0.read_flash_register16(ICH_FLASH_HSFSTS);
        s.write_flash_status(
            sts | HSFSTS_FLCERR | HSFSTS_DAEL,
        ).lemma_poll_flash_idle_cycles(ICH_FLASH_READ_COMMAND_TIMEOUT as int);
        let s1 = s0.flash_cycle_init().0;
        assert(cycles(s1.trace) <= cycles(self.trace));
        let s2 = s1.set_up_cycle(cycle, addr);
        assert(cycles(s2.trace) <= cycles(self.trace) + 1);
        let upper = s2.since(MacType::Mac_pch_spt);
        let (s3, ctrl) = s2.read_flash_ctrl(upper);
        s3.write_flash_ctrl(upper, ctrl | HSFCTL_FLCGO).lemma_poll_flash_done_cycles(
            cycle.timeout() + 1,
        );
    }

    /// However the controller behaves, an access makes a cycle at most once and
    /// as many times more as it may be repeated; and it comes to nothing
    /// exactly if none of them completes.
    pub proof fn law_flash_tries_are_bounded(self, cycle: Cycle, addr: u32, repeats: int)
        requires
            0 <= repeats <= ICH_FLASH_CYCLE_REPEAT_COUNT,
        ensures
            cycles(self.flash_access(cycle, addr, repeats).0.trace) <= cycles(self.trace)
                + ICH_FLASH_CYCLE_REPEAT_COUNT + 1 - repeats,
            self.flash_access(cycle, addr, repeats).1 is None <==> self.never_completes(
                cycle,
                addr,
                repeats,
            ),
        decreases ICH_FLASH_CYCLE_REPEAT_COUNT - repeats,
    {
        self.lemma_flash_attempt_cycles(cycle, addr);
        if repeats < ICH_FLASH_CYCLE_REPEAT_COUNT {
            self.flash_attempt(cycle, addr).0.law_flash_tries_are_bounded(cycle, addr, repeats + 1);
        }
    }
}

/// Each of the three flash accesses makes a bounded number of cycles, and a
/// read of which none completes leaves the data as it was.
pub proof fn law_failing_flash(run: Run, offset: u32, size: u32, data: u16, dword: u32)
    ensures
        ({
            let most = cycles(run.trace) + ICH_FLASH_CYCLE_REPEAT_COUNT + 1;
            &&& cycles(run.read_flash_data(offset, size, data).0.trace) <= most
            &&& cycles(run.read_flash_data32(offset, dword).0.trace) <= most
            &&& cycles(run.write_flash_data32(offset, dword).0.trace) <= most
        }),
        ({
            let cycle = if size == 1 {
                Cycle::ReadByte
            } else {
                Cycle::ReadWord
            };
            run.never_completes(cycle, run.flash_address(offset), 0) ==> run.read_flash_data(
                offset,
                size,
                data,
            ).2 == data
        }),
        run.never_completes(Cycle::ReadDword, run.flash_address(offset), 0)
            ==> run.read_flash_data32(offset, dword).2 == dword,
{
    reveal(Run::read_flash_data);
    reveal(Run::read_flash_data32);
    reveal(Run::write_flash_data32);
    let addr = run.flash_address(offset);
    run.law_flash_tries_are_bounded(Cycle::ReadByte, addr, 0);
    run.law_flash_tries_are_bounded(Cycle::ReadWord, addr, 0);
    run.law_flash_tries_are_bounded(Cycle::ReadDword, addr, 0);
    run.law_flash_tries_are_bounded(Cycle::WriteDword(dword), addr, 0);
}

/// An access of a size or to an address that the flash does not have, or of a
/// size that the controller does not allow, fails before anything is done to
/// the device; and these are the only accesses that fail.
pub proof fn law_flash_bounds(run: Run, offset: u32, size: u32, data: u16, dword: u32, byte: u8)
    ensures
        run.read_flash_data(offset, size, data).1 is Err <==> {
            ||| size != 1 && size != 2
            ||| offset > ICH_FLASH_LINEAR_ADDR_MASK
        },
        run.read_flash_data(offset, size, data).1 is Err ==> run.read_flash_data(
            offset,
            size,
            data,
        ).0 == run,
        run.read_flash_data32(offset, dword).1 is Err <==> {
            ||| offset > ICH_FLASH_LINEAR_ADDR_MASK
            ||| !run.since(MacType::Mac_pch_spt)
        },
        run.read_flash_data32(offset, dword).1 is Err ==> run.read_flash_data32(offset, dword).0
            == run,
        run.read_flash_byte(offset, byte).1 is Err <==> {
            ||| offset > ICH_FLASH_LINEAR_ADDR_MASK
            ||| run.since(MacType::Mac_pch_spt)
        },
        run.read_flash_byte(offset, byte).1 is Err ==> run.read_flash_byte(offset, byte).0 == run,
        run.write_flash_data32(offset, dword).1 is Err <==> offset > ICH_FLASH_LINEAR_ADDR_MASK
            && run.since(MacType::Mac_pch_spt),
        run.write_flash_data32(offset, dword).1 is Err ==> run.write_flash_data32(offset, dword).0
            == run,
{
    reveal(Run::read_flash_data);
    reveal(Run::read_flash_data32);
    reveal(Run::read_flash_byte);
    reveal(Run::write_flash_data32);
}

/// A byte that was read is a byte.
pub proof fn law_byte_read(run: Run, offset: u32, data: u16)
    requires
        data <= 0xFF,
    ensures
        run.read_flash_data(offset, 1, data).2 <= 0xFF,
{
    reveal(Run::read_flash_data);
    let (s, found) = run.flash_access(Cycle::ReadByte, run.flash_address(offset), 0);
    if let Some(v) = found {
        lemma_bytes(v);
    }
}

fn flash_address(adapter: &Adapter, offset: u32) -> (addr: u32)
    requires
        adapter.wf(),
    ensures
        addr == adapter@.flash_address(offset),
{
    proof {
        lemma_bytes(offset);
    }
    (ICH_FLASH_LINEAR_ADDR_MASK & offset) + adapter.hw.nvm.flash_base_addr
}

/// Reads the flash dword at word `offset`.
pub fn read_flash_dword_ich8lan(adapter: &mut Adapter, offset: u32, data: &mut u32) -> (res:
    AdResult)
    requires
        old(adapter).wf(),
    ensures
        final(adapter).wf(),
        (final(adapter)@, res, *final(data)) == old(adapter)@.read_flash_dword(offset, *old(data)),
{
    // The offset is in words, the cycle takes bytes.
    read_flash_data32_ich8lan(adapter, offset << 1, data)
}

/// Reads the flash word at word `offset`.
pub fn read_flash_word_ich8lan(
    adapter: &mut Adapter,
    offset: u32,
    data: &mut u16,
) -> (res: AdResult)
    requires
        old(adapter).wf(),
    ensures
        final(adapter).wf(),
        (final(adapter)@, res, *final(data)) == old(adapter)@.read_flash_word(offset, *old(data)),
{
    // The offset is in words, the cycle takes bytes.
    read_flash_data_ich8lan(adapter, offset << 1, 2, data)
}

/// Reads a single byte from the flash.
pub fn read_flash_byte_ich8lan(adapter: &mut Adapter, offset: u32, data: &mut u8) -> (res: AdResult)
    requires
        old(adapter).wf(),
    ensures
        final(adapter).wf(),
        (final(adapter)@, res, *final(data)) == old(adapter)@.read_flash_byte(offset, *old(data)),
{
    reveal(Run::read_flash_byte);
    if adapter.mac_since(MacType::Mac_pch_spt) {
        return Err(Error::DwordAccessOnly);
    }
    let mut word: u16 = 0;
    if let Err(e) = read_flash_data_ich8lan(adapter, offset, 1, &mut word) {
        return Err(e);
    }
    *data = word as u8;
    Ok(())
}

/// Reads a byte or a word from the flash.
pub fn read_flash_data_ich8lan(adapter: &mut Adapter, offset: u32, size: u32, data: &mut u16) -> (res:
    AdResult)
    requires
        old(adapter).wf(),
    ensures
        final(adapter).wf(),
        (final(adapter)@, res, *final(data)) == old(adapter)@.read_flash_data(
            offset,
            size,
            *old(data),
        ),
{
    reveal(Run::read_flash_data);
    if size < 1 || size > 2 || offset > ICH_FLASH_LINEAR_ADDR_MASK {
        return Err(Error::FlashSizeOrOffset);
    }
    let addr = flash_address(adapter, offset);
    let cycle = if size == 1 {
        Cycle::ReadByte
    } else {
        Cycle::ReadWord
    };
    if let Some(v) = flash_access(adapter, cycle, addr) {
        *data = if size == 1 {
            (v & 0xFF) as u16
        } else {
            (v & 0xFFFF) as u16
        };
    }
    Ok(())
}

/// Reads a dword from the flash.
pub fn read_flash_data32_ich8lan(adapter: &mut Adapter, offset: u32, data: &mut u32) -> (res:
    AdResult)
    requires
        old(adapter).wf(),
    ensures
        final(adapter).wf(),
        (final(adapter)@, res, *final(data)) == old(adapter)@.read_flash_data32(offset, *old(data)),
{
    reveal(Run::read_flash_data32);
    if offset > ICH_FLASH_LINEAR_ADDR_MASK || !adapter.mac_since(MacType::Mac_pch_spt) {
        return Err(Error::FlashOffsetOrHardware);
    }
    let addr = flash_address(adapter, offset);
    if let Some(v) = flash_access(adapter, Cycle::ReadDword, addr) {
        *data = v;
    }
    Ok(())
}

/// Writes four bytes to the flash.
pub fn write_flash_data32_ich8lan(adapter: &mut Adapter, offset: u32, data: u32) -> (res: AdResult)
    requires
        old(adapter).wf(),
    ensures
        final(adapter).wf(),
        (final(adapter)@, res) == old(adapter)@.write_flash_data32(offset, data),
{
    reveal(Run::write_flash_data32);
    if adapter.mac_since(MacType::Mac_pch_spt) && offset > ICH_FLASH_LINEAR_ADDR_MASK {
        return Err(Error::FlashOffset);
    }
    let addr = flash_address(adapter, offset);
    let _ = flash_access(adapter, Cycle::WriteDword(data), addr);
    Ok(())
}

/// Writes a byte or a word to the flash; not implemented.
pub fn write_flash_data_ich8lan(
    adapter: &mut Adapter,
    offset: u32,
    size: u32,
    data: u32,
) -> (res: AdResult)
    requires
        old(adapter).wf(),
    ensures
        final(adapter).wf(),
        (final(adapter)@, res) == old(adapter)@.incomplete(Feature::WriteFlashDataIch8lan),
{
    adapter.incomplete(Feature::WriteFlashDataIch8lan)
}

/// Writes a byte to the flash; not implemented.
pub fn write_flash_byte_ich8lan(adapter: &mut Adapter, offset: u32, data: u8) -> (res: AdResult)
    requires
        old(adapter).wf(),
    ensures
        final(adapter).wf(),
        (final(adapter)@, res) == old(adapter)@.incomplete(Feature::WriteFlashByteIch8lan),
{
    adapter.incomplete(Feature::WriteFlashByteIch8lan)
}

/// Writes a dword to the flash, trying again before giving up; not
/// implemented.
pub fn retry_write_flash_dword_ich8lan(
    adapter: &mut Adapter,
    offset: u32,
    dword: u32,
) -> (res: AdResult)
    requires
        old(adapter).wf(),
    ensures
        final(adapter).wf(),
        (final(adapter)@, res) == old(adapter)@.incomplete(Feature::RetryWriteFlashDwordIch8lan),
{
    adapter.incomplete(Feature::RetryWriteFlashDwordIch8lan)
}

/// Writes a byte to the flash, trying again before giving up; not
/// implemented.
pub fn retry_write_flash_byte_ich8lan(
    adapter: &mut Adapter,
    offset: u32,
    byte: u8,
) -> (res: AdResult)
    requires
        old(adapter).wf(),
    ensures
        final(adapter).wf(),
        (final(adapter)@, res) == old(adapter)@.incomplete(Feature::RetryWriteFlashByteIch8lan),
{
    adapter.incomplete(Feature::RetryWriteFlashByteIch8lan)
}

/// Erases a bank of the flash; not implemented.
pub fn erase_flash_bank_ich8lan(adapter: &mut Adapter, bank: u32) -> (res: AdResult)
    requires
        old(adapter).wf(),
    ensures
        final(adapter).wf(),
        (final(adapter)@, res) == old(adapter)@.incomplete(Feature::EraseFlashBankIch8lan),
{
    adapter.incomplete(Feature::EraseFlashBankIch8lan)
}

} // verus!
