//! Bringing the PHY within reach: when it counts as accessible, and what is
//! tried until it does.

use vstd::prelude::*;
use crate::bits::lemma_bits_16;
use crate::error::Error;
use crate::events::{group_events, Port};
use crate::hw::{MacType, PhyType, UlpState};
use crate::io::{Action, Call, Feature, Run};
use crate::laws::link::lynx_point_on;
use crate::laws::ulp::{lemma_toggle_lanphypc, pin_is_toggled};
use crate::resume::group_resumes;

verus! {

/// The identifier of a PHY is what its registers 2 and 3 hold, without the
/// last four bits; it is not known if one of them cannot be read or is all
/// ones.
pub proof fn law_phy_id_is_read(run: Run, reg: u16)
    ensures
        ({
            let (s, a) = run.call(Call::PhyReadRegLocked(2, reg));
            let high = a.value as u16;
            let (_, b) = s.call(Call::PhyReadRegLocked(3, high));
            let low = b.value as u16;
            let id = run.read_phy_id(reg).1;
            &&& a.result is Ok && b.result is Ok && high != 0xFFFF && low != 0xFFFF ==> id == Some(
                (high * 0x1_0000 + low - low % 16) as u32,
            )
            &&& a.result is Err || high == 0xFFFF ==> id is None
            &&& b.result is Err || low == 0xFFFF ==> id is None
        }),
{
    reveal(Run::read_phy_id);
    let (s, a) = run.call(Call::PhyReadRegLocked(2, reg));
    let high = a.value as u16;
    let low = s.call(Call::PhyReadRegLocked(3, high)).1.value as u16;
    lemma_bits_16(high, low);
}

/// Whether PHY and MAC were taken out of SMBus mode, or firmware was found
/// that may be using it.
pub open spec fn smbus_is_left(end: Run, from: int) -> bool {
    exists|fwsm: u32|
        {
            &&& #[trigger] end.saw(from, 0x5B54, fwsm)
            &&& fwsm & 0x8000 == 0 ==> end.rewrote_by(from, Port::Locked, 0x6037, 0x0001, 0)
                && end.did(from, Action::ClearRegisterBit(0x18, 0x800))
        }
}

/// From Lynx Point on, a PHY that is accessible is no longer in SMBus mode.
pub proof fn law_accessible_phy_left_smbus(run: Run, mac_type: MacType, device_id: u16)
    requires
        run.device_is(mac_type, device_id),
        lynx_point_on(mac_type),
        !run.phy_accessible().0.stalled,
        run.phy_accessible().1 == Ok::<bool, Error>(true),
    ensures
        smbus_is_left(run.phy_accessible().0, run.len()),
{
    broadcast use {
        group_resumes,
        group_events,
        Run::law_probe_phy_id_resumes,
        Run::law_confirm_phy_id_resumes,
        Run::law_unforce_smbus_resumes,
    };

    reveal(Run::phy_accessible);
    reveal(Run::unforce_smbus);
    run.lemma_start();
    let end = run.phy_accessible().0;
    let (s, id, reg) = run.probe_phy_id();
    let t = s.confirm_phy_id(id, reg).0;
    let (u, fwsm) = t.read_register(0x5B54);
    assert(end.continues(u)) by {
        u.lemma_start();
    }
    assert(end.saw(run.len(), 0x5B54, fwsm));
    if fwsm & 0x8000 == 0 {
        let ctrl = u.phy_read_reg_locked(0x6037, reg).2;
        lemma_bits_16(ctrl, 0x0001);
        u.lemma_rewritten(Port::Locked, 0x6037, reg, 0x0001, 0);
    }
}

/// Whether a PHY of Lynx Point, Sunrise Point or Cannon Point was found
/// accessible on the way from `start` to `end`.
pub open spec fn was_accessible(start: Run, end: Run) -> bool {
    exists|s: Run| #[trigger]
        s.continues(start) && s.phy_accessible().1 == Ok::<bool, Error>(true) && end.continues(
            s.phy_accessible().0,
        )
}

/// Whether a family is Lynx Point, Sunrise Point or Cannon Point.
pub open spec fn lynx_to_cannon(mac_type: MacType) -> bool {
    mac_type == MacType::Mac_pch_lpt || mac_type == MacType::Mac_pch_spt || mac_type
        == MacType::Mac_pch_cnp
}

/// Reaching the PHY of a family from Lynx to Cannon Point: it is within reach
/// exactly if it was found accessible. Where the first look fails the MAC is
/// forced to SMBus mode; where a second look fails too and the firmware does
/// not block it, the PHY is power cycled and, where a third look fails, SMBus
/// mode is left before the last.
pub proof fn law_phy_is_reached(run: Run, fwsm: u32, mac_type: MacType, device_id: u16)
    requires
        run.device_is(mac_type, device_id),
        lynx_to_cannon(mac_type),
        !run.reach_phy(fwsm).0.stalled,
    ensures
        ({
            let (end, unreached) = run.reach_phy(fwsm);
            let first = run.phy_accessible().1 == Ok::<bool, Error>(true);
            let from = run.len();
            &&& unreached == Ok::<bool, Error>(false) ==> was_accessible(run, end)
            &&& !first ==> end.did(from, Action::SetRegisterBit(0x18, 0x800)) && end.did(
                from,
                Action::MsecDelay(50),
            )
            &&& unreached == Ok::<bool, Error>(true) ==> {
                &&& end.called(from, Call::CheckResetBlock)
                &&& end.calls_at(end.len() - 1, Call::CheckResetBlock) || (pin_is_toggled(end, from)
                    && end.did(from, Action::ClearRegisterBit(0x18, 0x800)))
            }
        }),
{
    broadcast use {
        group_resumes,
        group_events,
        Run::law_phy_accessible_resumes,
        Run::law_toggle_lanphypc_resumes,
    };

    reveal(Run::reach_phy);
    reveal(Run::reach_phy_as_is);
    reveal(Run::reach_phy_by_power_cycle);
    reveal(Run::reach_phy_after_power_cycle);
    reveal(Run::phy_reached);
    run.lemma_start();
    let yes = Ok::<bool, Error>(true);
    let (end, unreached) = run.reach_phy(fwsm);
    assert(run.continues(run));
    end.lemma_start();
    assert(end.continues(end));
    if run.phy_accessible().1 != yes {
        let s1 = run.phy_accessible().0.set_register_bit(0x18, 0x800).msec_delay(50);
        assert(s1.continues(run));
        assert(end.continues(s1)) by {
            s1.lemma_start();
        }
        if s1.phy_accessible().1 != yes {
            let s2 = s1.phy_accessible().0;
            let (s3, blocked) = s2.check_reset_block();
            if blocked == Ok::<bool, Error>(false) {
                let s4 = s3.toggle_lanphypc();
                assert(s4.continues(run));
                assert(end.continues(s4)) by {
                    s4.lemma_start();
                }
                lemma_toggle_lanphypc(s3);
                let ctrl = choose|ctrl: u32|
                    {
                        &&& #[trigger] s4.saw(s3.len(), 0, ctrl)
                        &&& s4.did(
                            s3.len(),
                            Action::WriteRegister(0, (ctrl | 0x0001_0000) & !0x0002_0000),
                        )
                        &&& s4.did(s3.len(), Action::WriteRegister(0, ctrl & !0x0003_0000))
                    };
                assert(s4.saw(run.len(), 0, ctrl));
                assert(end.saw(run.len(), 0, ctrl));
                if s4.phy_accessible().1 != yes {
                    let s5 = s4.phy_accessible().0.clear_register_bit(0x18, 0x800);
                    assert(s5.continues(run));
                }
            }
        }
    }
}

/// What the driver does when it loads: PHY configuration by hardware is gated
/// on an 82579 and later, the PHY is taken out of ultra low power mode by
/// force, brought within reach under the semaphore, and reset; on an 82579
/// without firmware configuration by hardware is then ungated. A firmware that
/// blocks the reset is an error.
pub proof fn law_phy_is_brought_up(run: Run, mac_type: MacType, device_id: u16)
    requires
        run.device_is(mac_type, device_id),
        !run.init_phy_workarounds().0.stalled,
    ensures
        ({
            let (end, r) = run.init_phy_workarounds();
            let fwsm = run.read_register(0x5B54).1;
            let from = run.len();
            let gated = mac_type == MacType::Mac_pch2lan || lynx_point_on(mac_type);
            &&& gated ==> end.did(from, Action::SetRegisterBit(0xF00, 0x80))
            &&& exists|s: Run| #[trigger]
                s.continues(run) && s.hw.dev_spec.ulp_state == UlpState::Unknown && end.continues(
                    s.disable_ulp(true).0,
                )
            &&& end.called(from, Call::PhyAcquire)
            &&& r is Ok ==> {
                &&& end.called(from, Call::PhyRelease)
                &&& end.called(from, Call::PhyHwResetGeneric)
                &&& end.called(from, Call::CheckResetBlock)
                &&& lynx_to_cannon(mac_type) ==> exists|s: Run| #[trigger]
                    s.continues(run) && s.reach_phy(fwsm).1 == Ok::<bool, Error>(false)
                        && end.continues(s.reach_phy(fwsm).0)
                &&& mac_type == MacType::Mac_pch2lan && fwsm & 0x8000 == 0 ==> end.did(
                    from,
                    Action::ClearRegisterBit(0xF00, 0x80),
                )
            }
        }),
{
    broadcast use {
        group_resumes,
        group_events,
        Run::law_gate_phy_config_resumes,
        Run::law_with_ulp_state_resumes,
        Run::law_disable_ulp_resumes,
        Run::law_reach_phy_resumes,
        Run::law_reset_reached_phy_resumes,
        Run::law_require_unblocked_resumes,
        Run::law_ungate_unmanaged_resumes,
    };

    reveal(Run::init_phy_workarounds);
    reveal(Run::reset_reached_phy);
    reveal(Run::require_unblocked);
    reveal(Run::ungate_unmanaged);
    reveal(Run::gate_phy_config);
    reveal(Run::with_ulp_state);
    run.lemma_start();
    let (end, r) = run.init_phy_workarounds();
    let (s, fwsm) = run.read_register(0x5B54);
    let s1 = s.gate_phy_config(true).with_ulp_state(UlpState::Unknown);
    let s2 = s1.disable_ulp(true).0;
    let s3 = s2.phy_acquire().0;
    assert(s1.continues(run) && s3.continues(run));
    assert(end.continues(s2)) by {
        s2.lemma_start();
    }
    if s2.phy_acquire().1 is Ok {
        let s4 = s3.reach_phy(fwsm).0;
        assert(end.continues(s4)) by {
            s4.lemma_start();
        }
    }
}

/// Identifying the PHY. A known identifier is kept; else the PHY is asked, and
/// on PCH2 and from Lynx Point to Cannon Point asked again in slow mode where
/// the answer is all zeros or the revision mask.
pub proof fn law_phy_is_identified(run: Run)
    ensures
        ({
            let (end, r) = run.identify_phy();
            let (s, a) = run.call(Call::GetPhyId);
            let unread = s.hw.phy.id == 0 || s.hw.phy.id == 0xFFFF_FFF0;
            let m = s.hw.mac.mac_type;
            let twice = m == MacType::Mac_pch2lan || lynx_to_cannon(m);
            &&& run.hw.phy.id != 0 ==> end == run && r is Ok
            &&& run.hw.phy.id == 0 && a.result is Err ==> (end, r) == (s, a.result)
            &&& run.hw.phy.id == 0 && a.result is Ok && !(unread && twice) ==> end == s && r is Ok
            &&& run.hw.phy.id == 0 && a.result is Ok && unread && twice ==> (end, r)
                == s.read_phy_id_slowly()
        }),
{
    reveal(Run::identify_phy);
}

/// Slow mode, which is not implemented, is asked for before the PHY is asked
/// for its identifier once more, and only if that succeeds.
pub proof fn law_phy_is_identified_slowly(run: Run)
    ensures
        ({
            let (end, r) = run.read_phy_id_slowly();
            let (s, slow) = run.incomplete(Feature::SetMdioSlowModeHv);
            let (t, a) = s.call(Call::GetPhyId);
            &&& slow is Err ==> (end, r) == (s, slow)
            &&& slow is Ok ==> (end, r) == (t, a.result)
        }),
{
    reveal(Run::read_phy_id_slowly);
}

/// The parameters of the PHY. Access to it is worked around before it is
/// identified, and the functions for it follow from its family; only those
/// families that PCH devices come with are known.
pub proof fn law_phy_params_are_found(run: Run)
    ensures
        ({
            let (end, r) = run.init_phy_params();
            let (s, reached) = run.with_hw(run.hw.with_pch_phy_ops()).init_phy_workarounds();
            let (t, identified) = s.identify_phy();
            let (u, phy_type) = t.phy_type_from_id(t.hw.phy.id);
            let known = phy_type == PhyType::Type_82577 || phy_type == PhyType::Type_82578
                || phy_type == PhyType::Type_82579 || phy_type == PhyType::Type_i217;
            &&& reached is Err ==> (end, r) == (s, reached)
            &&& reached is Ok && identified is Err ==> (end, r) == (t, identified)
            &&& reached is Ok && identified is Ok ==> {
                &&& end == u.with_hw(u.hw.with_phy_type(phy_type))
                &&& r is Ok <==> known
                &&& !known ==> r == Err::<(), _>(Error::UnknownPhyType)
            }
        }),
{
    reveal(Run::init_phy_params);
}

/// Hardware is let configure the PHY again, 10 ms later, on PCH2 without
/// firmware and nowhere else.
pub proof fn law_hardware_configures_again(run: Run, fwsm: u32)
    ensures
        ({
            let unmanaged = run.hw.mac.mac_type == MacType::Mac_pch2lan && fwsm & 0x8000 == 0;
            &&& unmanaged ==> run.ungate_unmanaged(fwsm) == run.msec_delay(10).clear_register_bit(
                0xF00,
                0x80,
            )
            &&& !unmanaged ==> run.ungate_unmanaged(fwsm) == run
        }),
{
    reveal(Run::ungate_unmanaged);
    reveal(Run::gate_phy_config);
    reveal(Run::act);
}

/// A PHY that is reached is reset, unless the firmware blocks that, which is an
/// error before the reset and after it. Whatever comes of it, hardware is let
/// configure the PHY again, but if asking the firmware fails.
pub proof fn law_reached_phy_is_reset(run: Run, fwsm: u32)
    ensures
        ({
            let (end, r) = run.reset_reached_phy(fwsm);
            let blocked = Err::<(), Error>(Error::ResetBlocked);
            let (s, before) = run.check_reset_block();
            let (t, a) = s.call(Call::PhyHwResetGeneric);
            let (u, after) = t.check_reset_block();
            &&& before matches Ok(true) ==> (end, r) == (s.ungate_unmanaged(fwsm), blocked)
            &&& before is Err ==> end == s && r is Err && r->Err_0 == before->Err_0
            &&& before matches Ok(false) ==> {
                &&& a.result is Err ==> (end, r) == (t.ungate_unmanaged(fwsm), a.result)
                &&& a.result is Ok && (after matches Ok(true)) ==> (end, r) == (
                    u.ungate_unmanaged(fwsm),
                    blocked,
                )
                &&& a.result is Ok && after is Err ==> end == u && r is Err && r->Err_0
                    == after->Err_0
                &&& a.result is Ok && (after matches Ok(false)) ==> end == u.ungate_unmanaged(fwsm)
                    && r is Ok
            }
        }),
{
    reveal(Run::reset_reached_phy);
    reveal(Run::require_unblocked);
}

} // verus!
