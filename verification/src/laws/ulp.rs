//! Leaving ultra low power mode: where it is done, and what has been done to
//! MAC and PHY once it succeeds.

use vstd::prelude::*;
use crate::bits::{lemma_bits_16, lemma_bits_32};
use crate::error::Error;
use crate::events::{group_events, Port};
use crate::hw::{MacType, UlpState};
use crate::io::{Action, Call, Reply, Run};
use crate::laws::link::lynx_point_on;
use crate::resume::group_resumes;

verus! {

/// Whether a device can be in the mode, by its family and identifier: all from
/// Lynx Point on but for four I217 and I218.
pub open spec fn has_ulp(mac_type: MacType, device_id: u16) -> bool {
    lynx_point_on(mac_type) && device_id != 0x153A && device_id != 0x153B && device_id != 0x15A0
        && device_id != 0x15A1
}

/// Whether a read of a PHY register by the functions for HV PHYs failed, at
/// place `from` or later.
pub open spec fn read_failed(end: Run, from: int) -> bool {
    exists|reg: u32, before: u16| #[trigger] end.failed(from, Call::ReadPhyRegHvLocked(reg, before))
}

/// Whether the configuration of the mode in the PHY was cleared, and the new
/// one put into effect.
#[verifier::opaque]
pub open spec fn config_is_cleared(end: Run, from: int) -> bool {
    exists|i: int, before: u16|
        {
            &&& from <= i < end.len() - 2
            &&& #[trigger] end.calls_at(i, Call::ReadPhyRegHvLocked(0x6170, before))
            &&& end.reply_to(i) matches Reply::Returned(r)
            &&& end.calls_at(
                i + 1,
                Call::WritePhyRegHvLocked(0x6170, (r.value as u16) & !0x1D74),
            )
            &&& end.calls_at(
                i + 2,
                Call::WritePhyRegHvLocked(0x6170, ((r.value as u16) & !0x1D74) | 1),
            )
        }
}

pub broadcast proof fn lemma_cleared_anchored(start: Run, mid: Run, later: Run)
    requires
        #[trigger] mid.reached_from(start),
        #[trigger] config_is_cleared(later, mid.len()),
    ensures
        config_is_cleared(later, start.len()),
{
    reveal(config_is_cleared);
    reveal(Run::reached_from);
    mid.lemma_kept(start);
}

pub broadcast proof fn lemma_cleared_later(earlier: Run, later: Run, from: int)
    requires
        #[trigger] config_is_cleared(earlier, from),
        #[trigger] later.continues(earlier),
        from >= 0,
    ensures
        config_is_cleared(later, from),
{
    reveal(config_is_cleared);
    later.lemma_kept(earlier);
    let (i, before) = choose|i: int, before: u16|
        {
            &&& from <= i < earlier.len() - 2
            &&& #[trigger] earlier.calls_at(i, Call::ReadPhyRegHvLocked(0x6170, before))
            &&& earlier.reply_to(i) matches Reply::Returned(r)
            &&& earlier.calls_at(
                i + 1,
                Call::WritePhyRegHvLocked(0x6170, (r.value as u16) & !0x1D74),
            )
            &&& earlier.calls_at(
                i + 2,
                Call::WritePhyRegHvLocked(0x6170, ((r.value as u16) & !0x1D74) | 1),
            )
        };
    later.lemma_reply_kept(earlier, i);
    assert(later.trace[i] == earlier.trace[i] && later.trace[i + 1] == earlier.trace[i + 1]
        && later.trace[i + 2] == earlier.trace[i + 2]);
    assert(later.calls_at(i, Call::ReadPhyRegHvLocked(0x6170, before)));
}

/// What leaving the mode without the firmware does to PHY and MAC.
pub open spec fn phy_has_left(end: Run, from: int) -> bool {
    &&& end.rewrote_by(from, Port::Hv, 0x6037, 0x0001, 0)
    &&& end.did(from, Action::ClearRegisterBit(0x18, 0x800))
    &&& end.rewrote_by(from, Port::Hv, 0x6051, 0, 0x4000)
    &&& config_is_cleared(end, from)
    &&& end.did(from, Action::ClearRegisterBit(0xE4, 0x20))
}

pub broadcast proof fn lemma_reconfigure_ulp(run: Run, reg: u16)
    requires
        !run.reconfigure_ulp(reg).0.stalled,
    ensures
        ({
            let (end, done) = #[trigger] run.reconfigure_ulp(reg);
            let from = run.len();
            &&& done ==> {
                &&& end.rewrote_by(from, Port::Hv, 0x6051, 0, 0x4000)
                &&& config_is_cleared(end, from)
                &&& end.did(from, Action::ClearRegisterBit(0xE4, 0x20))
            }
            &&& !done ==> read_failed(end, from)
        }),
{
    broadcast use {group_resumes, group_events};

    reveal(Run::reconfigure_ulp);
    run.lemma_start();
    let (end, done) = run.reconfigure_ulp(reg);
    let (s, a) = run.call(Call::ReadPhyRegHvLocked(0x6051, reg));
    if done {
        let pm = a.value as u16;
        let k1 = pm | 0x4000;
        lemma_bits_16(pm, 0x4000);
        run.lemma_rewritten(Port::Hv, 0x6051, reg, 0, 0x4000);
        let s = s.call(Call::WritePhyRegHvLocked(0x6051, k1)).0;
        let read = Call::ReadPhyRegHvLocked(0x6170, k1);
        let (t, a) = s.call(read);
        let off = (a.value as u16) & !0x1D74;
        let u = t.call(Call::WritePhyRegHvLocked(0x6170, off)).0;
        let w = u.call(Call::WritePhyRegHvLocked(0x6170, off | 1)).0;
        s.lemma_was_called(read);
        t.lemma_was_called(Call::WritePhyRegHvLocked(0x6170, off));
        u.lemma_was_called(Call::WritePhyRegHvLocked(0x6170, off | 1));
        assert(w.continues(t)) by {
            t.lemma_start();
        }
        w.lemma_kept(t);
        w.lemma_kept(u);
        w.lemma_reply_kept(t, s.len());
        s.lemma_kept(run);
        assert(w.trace[s.len()] == t.trace[s.len()] && w.trace[s.len() + 1] == u.trace[s.len()
            + 1]);
        assert(w.calls_at(s.len(), read));
        assert(config_is_cleared(w, run.len())) by {
            reveal(config_is_cleared);
        }
        lemma_cleared_later(w, end, run.len());
    }
}

pub broadcast proof fn lemma_clear_ulp_in_phy(run: Run)
    requires
        !run.clear_ulp_in_phy().0.stalled,
    ensures
        ({
            let (end, done) = #[trigger] run.clear_ulp_in_phy();
            &&& done ==> phy_has_left(end, run.len())
            &&& !done ==> read_failed(end, run.len())
        }),
{
    broadcast use {
        group_resumes,
        group_events,
        Run::law_reach_smb_ctrl_resumes,
        Run::law_reconfigure_ulp_resumes,
        lemma_reconfigure_ulp,
        lemma_cleared_anchored,
        lemma_cleared_later,
    };

    reveal(Run::clear_ulp_in_phy);
    reveal(Run::reach_smb_ctrl);
    run.lemma_start();
    let (s, r, reg) = run.reach_smb_ctrl();
    if r is Ok {
        lemma_bits_16(reg, 0x0001);
        let (t, a) = run.call(Call::ReadPhyRegHvLocked(0x6037, 0));
        if a.result is Ok {
            run.lemma_rewritten(Port::Hv, 0x6037, 0, 0x0001, 0);
        } else {
            let u = t.set_register_bit(0x18, 0x800).msec_delay(50);
            u.lemma_rewritten(Port::Hv, 0x6037, a.value as u16, 0x0001, 0);
        }
    }
}

/// Whether the pin that powers the PHY was pulled low and let go again.
pub open spec fn pin_is_toggled(end: Run, from: int) -> bool {
    exists|ctrl: u32|
        {
            &&& #[trigger] end.saw(from, 0, ctrl)
            &&& end.did(from, Action::WriteRegister(0, (ctrl | 0x0001_0000) & !0x0002_0000))
            &&& end.did(from, Action::WriteRegister(0, ctrl & !0x0003_0000))
        }
}

pub broadcast proof fn lemma_toggle_lanphypc(run: Run)
    requires
        !run.toggle_lanphypc().stalled,
    ensures
        ({
            let end = #[trigger] run.toggle_lanphypc();
            &&& end.rewrote(run.len(), 0x3C, 0x0C00_0000, 0x0800_0000)
            &&& pin_is_toggled(end, run.len())
        }),
{
    broadcast use {group_resumes, group_events, Run::law_poll_lanphypc_resumes};

    reveal(Run::toggle_lanphypc);
    run.lemma_start();
    let s = run.modify_register(0x3C, 0x0C00_0000, 0x0800_0000);
    let ctrl = s.read_register(0).1;
    lemma_bits_32(ctrl);
    assert(run.toggle_lanphypc().saw(run.len(), 0, ctrl));
}

pub broadcast proof fn lemma_poll_ulp(run: Run, tries: int)
    requires
        !run.poll_ulp(tries).0.stalled,
    ensures
        ({
            let (end, done) = #[trigger] run.poll_ulp(tries);
            done ==> exists|v: u32| v & 0x400 == 0 && #[trigger] end.saw(run.len(), 0x5B54, v)
        }),
    decreases tries,
{
    broadcast use {group_resumes, group_events, Run::law_poll_ulp_resumes};

    run.lemma_start();
    let (s, v) = run.read_register(0x5B54);
    if v & 0x400 != 0 && tries > 1 {
        lemma_poll_ulp(s.msec_delay(10), tries - 1);
    }
}

/// Leaving the mode takes effect on every device that can be in it and of
/// which it is not known that it is not: the firmware status is read first. If
/// it says that there is no firmware, success, with every PHY register read,
/// means that PHY and MAC have been taken out of the mode; with force the PHY
/// was power cycled before and reset afterwards. If there is firmware, success
/// means that it has been seen to be done, and that the request is withdrawn.
/// Either way the mode is recorded as off.
pub proof fn law_ulp_is_left(run: Run, force: bool, mac_type: MacType, device_id: u16)
    requires
        run.device_is(mac_type, device_id),
        has_ulp(mac_type, device_id),
        run.hw.dev_spec.ulp_state != UlpState::Off,
        !run.disable_ulp(force).0.stalled,
    ensures
        ({
            let (end, r) = run.disable_ulp(force);
            let fwsm = run.read_register(0x5B54).1;
            let from = run.len();
            &&& end.len() > from && end.trace[from] == Action::ReadRegister(0x5B54)
            &&& fwsm & 0x8000 != 0 && force ==> end.rewrote(from, 0x5B50, 0x800, 0x1000)
            &&& r is Ok && fwsm & 0x8000 != 0 ==> {
                &&& end.hw.dev_spec.ulp_state == UlpState::Off
                &&& exists|v: u32| v & 0x400 == 0 && #[trigger] end.saw(from, 0x5B54, v)
                &&& force ==> end.did(from, Action::ClearRegisterBit(0x5B50, 0x1000))
                &&& !force ==> end.did(from, Action::ClearRegisterBit(0x5B50, 0x800))
            }
            &&& r is Err && fwsm & 0x8000 != 0 ==> r == Err::<(), Error>(Error::UlpConfigure)
            &&& r is Ok && fwsm & 0x8000 == 0 && !read_failed(end, from) ==> {
                &&& end.hw.dev_spec.ulp_state == UlpState::Off
                &&& phy_has_left(end, from)
                &&& end.called(from, Call::PhyAcquire) && end.called(from, Call::PhyRelease)
                &&& force ==> pin_is_toggled(end, from) && end.called(from, Call::PhyReset)
            }
        }),
{
    broadcast use {
        group_resumes,
        group_events,
        Run::law_with_ulp_state_resumes,
        Run::law_poll_ulp_resumes,
        Run::law_toggle_lanphypc_resumes,
        Run::law_clear_ulp_in_phy_resumes,
        Run::law_release_from_ulp_resumes,
        lemma_clear_ulp_in_phy,
        lemma_cleared_anchored,
        lemma_cleared_later,
        lemma_poll_ulp,
    };

    reveal(Run::disable_ulp);
    reveal(Run::leave_ulp_by_firmware);
    reveal(Run::leave_ulp_by_software);
    reveal(Run::release_from_ulp);
    reveal(Run::with_ulp_state);
    run.lemma_start();
    run.lemma_device_known(mac_type, device_id);
    let (end, r) = run.disable_ulp(force);
    let (s, fwsm) = run.read_register(0x5B54);
    assert(end.continues(s)) by {
        s.lemma_start();
    }
    end.lemma_kept(s);
    run.lemma_asked(Action::ReadRegister(0x5B54));
    assert(end.trace[run.len()] == s.trace[run.len()]);
    if fwsm & 0x8000 == 0 && force && r is Ok {
        let t = s.phy_acquire().0;
        lemma_toggle_lanphypc(t);
        let u = t.toggle_lanphypc();
        let ctrl = choose|ctrl: u32|
            {
                &&& #[trigger] u.saw(t.len(), 0, ctrl)
                &&& u.did(t.len(), Action::WriteRegister(0, (ctrl | 0x0001_0000) & !0x0002_0000))
                &&& u.did(t.len(), Action::WriteRegister(0, ctrl & !0x0003_0000))
            };
        assert(u.saw(run.len(), 0, ctrl));
        assert(end.saw(run.len(), 0, ctrl));
    }
}

/// On other devices, and where the mode is known to be off, nothing is done.
pub proof fn law_ulp_elsewhere(run: Run, force: bool)
    requires
        !has_ulp(run.hw.mac.mac_type, run.hw.device_id) || run.hw.dev_spec.ulp_state
            == UlpState::Off,
    ensures
        run.disable_ulp(force) == (run, Ok::<(), Error>(())),
{
    reveal(Run::disable_ulp);
}

} // verus!
