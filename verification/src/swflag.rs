//! The software control flag, a semaphore that software, firmware and
//! hardware share, and other states that the driver waits for.

use vstd::prelude::*;
use crate::consts::{
    E1000_EXTCNF_CTRL, E1000_EXTCNF_CTRL_GATE_PHY_CFG, E1000_EXTCNF_CTRL_SWFLAG, E1000_FWSM,
    E1000_ICH8_LAN_INIT_TIMEOUT, E1000_ICH_FWSM_RSPCIPHY, E1000_STATUS, E1000_STATUS_LAN_INIT_DONE,
    PHY_CFG_TIMEOUT, SW_FLAG_TIMEOUT,
};
use crate::error::{AdResult, Error};
use crate::hw::MacType;
use crate::io::{Action, Adapter, Reply, Run};

verus! {

/// Whether a value of the extended configuration control register has the
/// software flag set.
pub open spec fn flag_set(extcnf_ctrl: u32) -> bool {
    extcnf_ctrl & E1000_EXTCNF_CTRL_SWFLAG != 0
}

impl Run {
    /// Reads the control register up to `tries` times, 1 ms apart, until the
    /// software flag is as wanted. The second value is what was read last,
    /// `last` if nothing was; the third says whether the flag was found so.
    pub open spec fn poll_flag(self, wanted: bool, tries: int, last: u32) -> (Run, u32, bool)
        decreases tries,
    {
        if tries <= 0 {
            (self, last, false)
        } else {
            let (s, v) = self.read_register(E1000_EXTCNF_CTRL);
            if flag_set(v) == wanted {
                (s, v, true)
            } else {
                s.msec_delay(1).poll_flag(wanted, tries - 1, v)
            }
        }
    }

    /// Waits until the flag is clear, sets it, and waits until it reads back
    /// as set; if it does not, clears it again.
    #[verifier::opaque]
    pub open spec fn acquire_swflag(self) -> (Run, AdResult) {
        let s = self.act(Action::AssertCtxLockHeld);
        let (s, v, free) = s.poll_flag(false, PHY_CFG_TIMEOUT as int, 0);
        if !free {
            (s, Err(Error::SwLocked))
        } else {
            let set = v | E1000_EXTCNF_CTRL_SWFLAG;
            let s = s.write_register(E1000_EXTCNF_CTRL, set);
            let (s, v, acquired) = s.poll_flag(true, SW_FLAG_TIMEOUT as int, set);
            if acquired {
                (s, Ok(()))
            } else {
                (
                    s.write_register(E1000_EXTCNF_CTRL, v & !E1000_EXTCNF_CTRL_SWFLAG),
                    Err(Error::SemaphoreBusy),
                )
            }
        }
    }

    /// Clears the flag if it is set.
    #[verifier::opaque]
    pub open spec fn release_swflag(self) -> Run {
        let (s, v) = self.read_register(E1000_EXTCNF_CTRL);
        let s = if flag_set(v) {
            s.write_register(E1000_EXTCNF_CTRL, v & !E1000_EXTCNF_CTRL_SWFLAG)
        } else {
            s
        };
        s.act(Action::AssertCtxLockHeld)
    }

    /// Reads the firmware status up to `tries` times, 10 ms apart, while it
    /// blocks resets of the PHY.
    pub open spec fn poll_reset_block(self, tries: int) -> (Run, bool)
        decreases tries,
    {
        let (s, fwsm) = self.read_register(E1000_FWSM);
        if fwsm & E1000_ICH_FWSM_RSPCIPHY != 0 {
            (s, false)
        } else if tries <= 1 {
            (s.msec_delay(10), true)
        } else {
            s.msec_delay(10).poll_reset_block(tries - 1)
        }
    }

    /// Reads the status register up to `tries` times, 100 us apart, until it
    /// shows that the MAC has finished its basic configuration.
    pub open spec fn poll_init_done(self, tries: int) -> Run
        decreases tries,
    {
        let (s, status) = self.read_register(E1000_STATUS);
        let s = s.usec_delay(100);
        if status & E1000_STATUS_LAN_INIT_DONE != 0 || tries <= 1 {
            s
        } else {
            s.poll_init_done(tries - 1)
        }
    }

    #[verifier::opaque]
    pub open spec fn lan_init_done(self) -> Run {
        self.poll_init_done(E1000_ICH8_LAN_INIT_TIMEOUT + 1).clear_register_bit(
            E1000_STATUS,
            E1000_STATUS_LAN_INIT_DONE,
        )
    }

    /// Gates or ungates PHY configuration by hardware, from the 82579 on.
    #[verifier::opaque]
    pub open spec fn gate_phy_config(self, gate: bool) -> Run {
        if !self.since(MacType::Mac_pch2lan) {
            self
        } else if gate {
            self.set_register_bit(E1000_EXTCNF_CTRL, E1000_EXTCNF_CTRL_GATE_PHY_CFG)
        } else {
            self.clear_register_bit(E1000_EXTCNF_CTRL, E1000_EXTCNF_CTRL_GATE_PHY_CFG)
        }
    }
}

/// Setting the flag and clearing it again changes no other bit, and gives a
/// register in which the flag was clear back as it was.
pub proof fn law_flag_bit(v: u32)
    ensures
        flag_set(v | E1000_EXTCNF_CTRL_SWFLAG),
        !flag_set(v & !E1000_EXTCNF_CTRL_SWFLAG),
        (v | E1000_EXTCNF_CTRL_SWFLAG) & !E1000_EXTCNF_CTRL_SWFLAG == v
            & !E1000_EXTCNF_CTRL_SWFLAG,
        !flag_set(v) ==> (v | E1000_EXTCNF_CTRL_SWFLAG) & !E1000_EXTCNF_CTRL_SWFLAG == v,
{
    assert((v | 0x20) & 0x20 != 0 && (v & !0x20) & 0x20 == 0 && (v | 0x20) & !0x20 == v & !0x20 && (v
        & 0x20 == 0 ==> (v | 0x20) & !0x20 == v)) by (bit_vector);
}

impl Run {
    /// Whether no register has been written since `earlier`.
    pub open spec fn wrote_nothing_since(self, earlier: Run) -> bool {
        forall|i: int|
            earlier.trace.len() <= i < self.trace.len() ==> !(#[trigger] self.trace[i] is WriteRegister)
    }

    /// Whether the last thing done was to read register `reg`, which gave `v`.
    pub open spec fn just_read(self, reg: u32, v: u32) -> bool {
        &&& 0 < self.used <= self.replies.len()
        &&& self.replies[self.used - 1] == Reply::Value(v)
        &&& self.trace.len() > 0
        &&& self.trace.last() == Action::ReadRegister(reg)
    }

    proof fn lemma_poll_flag(self, wanted: bool, tries: int, last: u32)
        requires
            !self.poll_flag(wanted, tries, last).0.stalled,
        ensures
            ({
                let (s, v, found) = self.poll_flag(wanted, tries, last);
                &&& self.trace.len() <= s.trace.len()
                &&& s.wrote_nothing_since(self)
                &&& found ==> flag_set(v) == wanted && s.just_read(E1000_EXTCNF_CTRL, v)
                &&& !found && tries > 0 ==> flag_set(v) != wanted
            }),
        decreases tries,
    {
        reveal(Run::act);
        reveal(Run::ask);
        if tries > 0 {
            let (s, v) = self.read_register(E1000_EXTCNF_CTRL);
            if flag_set(v) != wanted {
                let next = s.msec_delay(1);
                next.lemma_poll_flag(wanted, tries - 1, v);
                next.law_poll_flag_resumes(wanted, tries - 1, v);
                next.poll_flag(wanted, tries - 1, v).0.lemma_kept(next);
            }
        }
    }
}

/// What acquiring the flag means once it has come to an end: on success the
/// flag was just read back as set; if the flag never became free, nothing has
/// been written; if it could not be had, the last thing written has it clear.
pub proof fn law_acquire_outcome(run: Run)
    requires
        !run.acquire_swflag().0.stalled,
    ensures
        ({
            let (s, r) = run.acquire_swflag();
            match r {
                Ok(_) => exists|v: u32| flag_set(v) && #[trigger] s.just_read(E1000_EXTCNF_CTRL, v),
                Err(Error::SwLocked) => s.wrote_nothing_since(run),
                Err(e) => e == Error::SemaphoreBusy && (s.trace.last() matches Action::WriteRegister(
                    reg,
                    v,
                ) && reg == E1000_EXTCNF_CTRL && !flag_set(v)),
            }
        }),
{
    reveal(Run::acquire_swflag);
    reveal(Run::act);
    let s0 = run.act(Action::AssertCtxLockHeld);
    let (s1, v, free) = s0.poll_flag(false, PHY_CFG_TIMEOUT as int, 0);
    if free {
        let set = v | E1000_EXTCNF_CTRL_SWFLAG;
        let s2 = s1.write_register(E1000_EXTCNF_CTRL, set);
        let (s3, w, acquired) = s2.poll_flag(true, SW_FLAG_TIMEOUT as int, set);
        s2.law_poll_flag_resumes(true, SW_FLAG_TIMEOUT as int, set);
        s3.lemma_kept(s2);
        s2.lemma_poll_flag(true, SW_FLAG_TIMEOUT as int, set);
        law_flag_bit(w);
    } else {
        s0.lemma_poll_flag(false, PHY_CFG_TIMEOUT as int, 0);
        s0.law_poll_flag_resumes(false, PHY_CFG_TIMEOUT as int, 0);
        s1.lemma_kept(s0);
    }
}

/// The firmware is found to block resets of the PHY exactly if all looks at
/// its status said so; that it does not is what the last look said.
pub proof fn law_reset_block(run: Run, tries: int)
    requires
        tries >= 1,
        !run.poll_reset_block(tries).0.stalled,
    ensures
        ({
            let (s, blocked) = run.poll_reset_block(tries);
            &&& run.used < s.used <= run.used + tries
            &&& blocked ==> s.used == run.used + tries
            &&& forall|i: int|
                run.used <= i < s.used ==> ((#[trigger] s.replies[i]) matches Reply::Value(v) && (v
                    & E1000_ICH_FWSM_RSPCIPHY != 0) == (!blocked && i == s.used - 1))
        }),
    decreases tries,
{
    reveal(Run::act);
    reveal(Run::ask);
    run.law_poll_reset_block_resumes(tries);
    reveal(Run::continues);
    let (s1, v) = run.read_register(E1000_FWSM);
    if v & E1000_ICH_FWSM_RSPCIPHY == 0 && tries > 1 {
        law_reset_block(s1.msec_delay(10), tries - 1);
        s1.msec_delay(10).law_poll_reset_block_resumes(tries - 1);
    }
}

fn poll_flag(adapter: &mut Adapter, wanted: bool, tries: u32, last: &mut u32) -> (found: bool)
    requires
        old(adapter).wf(),
    ensures
        final(adapter).wf(),
        (final(adapter)@, *final(last), found) == old(adapter)@.poll_flag(
            wanted,
            tries as int,
            *old(last),
        ),
{
    let mut timeout: u32 = tries;
    while timeout > 0
        invariant
            adapter.wf(),
            adapter@.poll_flag(wanted, timeout as int, *last) == old(adapter)@.poll_flag(
                wanted,
                tries as int,
                *old(last),
            ),
        decreases timeout,
    {
        *last = adapter.read_register(E1000_EXTCNF_CTRL);
        if (*last & E1000_EXTCNF_CTRL_SWFLAG != 0) == wanted {
            return true;
        }
        adapter.msec_delay(1);
        timeout = timeout - 1;
    }
    false
}

/// Acquires the software control flag, which guards PHY accesses and some
/// MAC registers.
pub fn acquire_swflag_ich8lan(adapter: &mut Adapter) -> (res: AdResult)
    requires
        old(adapter).wf(),
    ensures
        final(adapter).wf(),
        (final(adapter)@, res) == old(adapter)@.acquire_swflag(),
{
    reveal(Run::acquire_swflag);
    adapter.assert_ctx_lock_held();
    let mut extcnf_ctrl: u32 = 0;
    if !poll_flag(adapter, false, PHY_CFG_TIMEOUT, &mut extcnf_ctrl) {
        return Err(Error::SwLocked);
    }
    extcnf_ctrl = extcnf_ctrl | E1000_EXTCNF_CTRL_SWFLAG;
    adapter.write_register(E1000_EXTCNF_CTRL, extcnf_ctrl);
    if !poll_flag(adapter, true, SW_FLAG_TIMEOUT, &mut extcnf_ctrl) {
        extcnf_ctrl = extcnf_ctrl & !E1000_EXTCNF_CTRL_SWFLAG;
        adapter.write_register(E1000_EXTCNF_CTRL, extcnf_ctrl);
        return Err(Error::SemaphoreBusy);
    }
    Ok(())
}

/// Releases the software control flag. That it was released already is no
/// error.
pub fn release_swflag_ich8lan(adapter: &mut Adapter) -> (res: AdResult)
    requires
        old(adapter).wf(),
    ensures
        final(adapter).wf(),
        res is Ok,
        final(adapter)@ == old(adapter)@.release_swflag(),
{
    reveal(Run::release_swflag);
    let extcnf_ctrl = adapter.read_register(E1000_EXTCNF_CTRL);
    if extcnf_ctrl & E1000_EXTCNF_CTRL_SWFLAG != 0 {
        adapter.write_register(E1000_EXTCNF_CTRL, extcnf_ctrl & !E1000_EXTCNF_CTRL_SWFLAG);
    }
    adapter.assert_ctx_lock_held();
    Ok(())
}

/// How often the firmware is asked whether it blocks resets of the PHY.
pub const RESET_BLOCK_TRIES: u32 = 31;

/// Checks whether the firmware blocks resets of the PHY, and keeps doing so
/// for some 300 ms.
pub fn check_reset_block_ich8lan(adapter: &mut Adapter) -> (res: Result<bool, Error>)
    requires
        old(adapter).wf(),
    ensures
        final(adapter).wf(),
        res is Ok,
        (final(adapter)@, res->Ok_0) == old(adapter)@.poll_reset_block(RESET_BLOCK_TRIES as int),
{
    let mut tries: u32 = RESET_BLOCK_TRIES;
    loop
        invariant
            adapter.wf(),
            1 <= tries <= RESET_BLOCK_TRIES,
            adapter@.poll_reset_block(tries as int) == old(adapter)@.poll_reset_block(
                RESET_BLOCK_TRIES as int,
            ),
        decreases tries,
    {
        let fwsm = adapter.read_register(E1000_FWSM);
        if fwsm & E1000_ICH_FWSM_RSPCIPHY != 0 {
            return Ok(false);
        }
        adapter.msec_delay(10);
        if tries == 1 {
            return Ok(true);
        }
        tries = tries - 1;
    }
}

/// Waits until the MAC has finished configuring the PHY after a software
/// reset, and clears the indication for the next time.
pub fn lan_init_done_ich8lan(adapter: &mut Adapter)
    requires
        old(adapter).wf(),
    ensures
        final(adapter).wf(),
        final(adapter)@ == old(adapter)@.lan_init_done(),
{
    reveal(Run::lan_init_done);
    let mut count: u32 = E1000_ICH8_LAN_INIT_TIMEOUT;
    loop
        invariant_except_break
            adapter.wf(),
            count <= E1000_ICH8_LAN_INIT_TIMEOUT,
            adapter@.poll_init_done(count + 1) == old(adapter)@.poll_init_done(
                E1000_ICH8_LAN_INIT_TIMEOUT + 1,
            ),
        ensures
            adapter.wf(),
            adapter@ == old(adapter)@.poll_init_done(E1000_ICH8_LAN_INIT_TIMEOUT + 1),
        decreases count,
    {
        let data: u32 = adapter.read_register(E1000_STATUS) & E1000_STATUS_LAN_INIT_DONE;
        adapter.usec_delay(100);
        if data != 0 || count == 0 {
            break;
        }
        count = count - 1;
    }
    adapter.clear_register_bit(E1000_STATUS, E1000_STATUS_LAN_INIT_DONE);
}

/// Gates or ungates the automatic PHY configuration by hardware. While it is
/// gated, software configures the PHY.
pub fn gate_hw_phy_config_ich8lan(adapter: &mut Adapter, gate: bool)
    requires
        old(adapter).wf(),
    ensures
        final(adapter).wf(),
        final(adapter)@ == old(adapter)@.gate_phy_config(gate),
{
    reveal(Run::gate_phy_config);
    if !adapter.mac_since(MacType::Mac_pch2lan) {
        return;
    }
    if gate {
        adapter.set_register_bit(E1000_EXTCNF_CTRL, E1000_EXTCNF_CTRL_GATE_PHY_CFG);
    } else {
        adapter.clear_register_bit(E1000_EXTCNF_CTRL, E1000_EXTCNF_CTRL_GATE_PHY_CFG);
    }
}

} // verus!
