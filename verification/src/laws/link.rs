//! Watching the link: what is done to MAC and PHY for a link that is up or
//! down.

use vstd::prelude::*;
use crate::bits::{lemma_bits_16, lemma_bits_32};
use crate::error::Error;
use crate::events::{group_events, Port};
use crate::hw::{MacType, PhyType};
use crate::io::{Action, Call, Feature, Reply, Run};
use crate::link::PhyAccess;
use crate::ltr::ltrv_up;
use crate::resume::group_resumes;

verus! {

/// Whether a family is Lynx Point or later.
pub open spec fn lynx_point_on(mac_type: MacType) -> bool {
    mac_type == MacType::Mac_pch_lpt || mac_type == MacType::Mac_pch_spt || mac_type
        == MacType::Mac_pch_cnp || mac_type == MacType::Mac_newer
}

/// Whether a family is Sunrise Point or later.
pub open spec fn sunrise_point_on(mac_type: MacType) -> bool {
    mac_type == MacType::Mac_pch_spt || mac_type == MacType::Mac_pch_cnp || mac_type
        == MacType::Mac_newer
}

/// What is done to the PHY for the speed of the link, on Lynx Point and later:
/// the clock gate field is 0x3E8 at 10 and 100 Mb/s and 0xFA otherwise, and at
/// 1 Gb/s the K1 clock is requested.
pub open spec fn clock_is_tuned(end: Run, from: int, f: PhyAccess, speed: u16) -> bool {
    let port = Port::Op(f.read_locked, f.write_locked);
    &&& speed == 10 || speed == 100 ==> end.rewrote_by(from, port, 0x609C, 0x07FF, 0x3E8)
    &&& speed != 10 && speed != 100 ==> end.rewrote_by(from, port, 0x609C, 0x07FF, 0xFA)
    &&& speed == 1000 ==> end.rewrote_by(from, port, 0x6051, 0, 0x0200)
}

pub broadcast proof fn lemma_tune_pll(run: Run, f: PhyAccess, speed: u16)
    requires
        !run.tune_pll(f, speed).stalled,
    ensures
        clock_is_tuned(#[trigger] run.tune_pll(f, speed), run.len(), f, speed),
{
    broadcast use {group_resumes, group_events, Run::law_rewrite_phy_field_resumes};

    reveal(Run::tune_pll);
    reveal(Run::rewrite_phy_field);
    run.lemma_start();
    let port = Port::Op(f.read_locked, f.write_locked);
    let gate = if speed == 100 || speed == 10 {
        0x3E8u16
    } else {
        0xFAu16
    };
    let (s, v) = run.rewrite_phy_field(f, 0x609C, 0, 0x07FF, gate);
    run.lemma_rewritten(port, 0x609C, 0, 0x07FF, gate);
    if speed == 1000 {
        s.lemma_rewritten(port, 0x6051, v, 0, 0x0200);
    }
}

/// Whether the transmit pointer gap was looked at and, where it was below
/// 0x18, set to that, with the rest of its register kept.
#[verifier::opaque]
pub open spec fn gap_is_wide(end: Run, from: int, f: PhyAccess) -> bool {
    exists|i: int|
        {
            &&& from <= i < end.len() - 1
            &&& #[trigger] end.calls_at(i, Call::OpReadReg(f.read_locked, 0x6114, 0))
            &&& end.reply_to(i) matches Reply::Returned(r)
            &&& r.result is Ok && (r.value as u16) & 0x0FFC < 0x60 ==> end.calls_at(
                i + 1,
                Call::OpWriteReg(f.write_locked, 0x6114, ((r.value as u16) & !0x0FFC) | 0x60),
            )
        }
}

pub broadcast proof fn lemma_gap_anchored(start: Run, mid: Run, later: Run, f: PhyAccess)
    requires
        #[trigger] mid.reached_from(start),
        #[trigger] gap_is_wide(later, mid.len(), f),
    ensures
        gap_is_wide(later, start.len(), f),
{
    reveal(gap_is_wide);
    reveal(Run::reached_from);
    mid.lemma_kept(start);
}

pub broadcast proof fn lemma_gap_later(earlier: Run, later: Run, from: int, f: PhyAccess)
    requires
        #[trigger] gap_is_wide(earlier, from, f),
        #[trigger] later.continues(earlier),
        from >= 0,
    ensures
        gap_is_wide(later, from, f),
{
    reveal(gap_is_wide);
    later.lemma_kept(earlier);
    let i = choose|i: int|
        {
            &&& from <= i < earlier.len() - 1
            &&& #[trigger] earlier.calls_at(i, Call::OpReadReg(f.read_locked, 0x6114, 0))
            &&& earlier.reply_to(i) matches Reply::Returned(r)
            &&& r.result is Ok && (r.value as u16) & 0x0FFC < 0x60 ==> earlier.calls_at(
                i + 1,
                Call::OpWriteReg(f.write_locked, 0x6114, ((r.value as u16) & !0x0FFC) | 0x60),
            )
        };
    later.lemma_reply_kept(earlier, i);
    assert(later.trace[i] == earlier.trace[i] && later.trace[i + 1] == earlier.trace[i + 1]);
    assert(later.calls_at(i, Call::OpReadReg(f.read_locked, 0x6114, 0)));
}

pub broadcast proof fn lemma_tune_ptr_gap(run: Run, f: PhyAccess, speed: u16)
    requires
        !run.tune_ptr_gap(f, speed).0.stalled,
        run.tune_ptr_gap(f, speed).1 is Ok,
    ensures
        ({
            let end = (#[trigger] run.tune_ptr_gap(f, speed)).0;
            &&& speed != 1000 ==> end.called(
                run.len(),
                Call::OpWriteReg(f.write_locked, 0x6114, 0xC023),
            )
            &&& speed == 1000 ==> gap_is_wide(end, run.len(), f)
        }),
{
    broadcast use {group_resumes, group_events};

    reveal(Run::tune_ptr_gap);
    run.lemma_start();
    if speed == 1000 {
        let end = run.tune_ptr_gap(f, speed).0;
        let (s, _) = run.phy_acquire();
        let read = Call::OpReadReg(f.read_locked, 0x6114, 0);
        let (t, a) = s.call(read);
        s.lemma_was_called(read);
        let data = a.value as u16;
        lemma_bits_16(data, 0);
        let write = Call::OpWriteReg(f.write_locked, 0x6114, (data & !0x0FFC) | 0x60);
        let next = if a.result is Ok && data & 0x0FFC < 0x60 {
            write
        } else {
            Call::PhyRelease
        };
        let u = t.call(next).0;
        assert(end.continues(u)) by {
            u.lemma_start();
        }
        t.lemma_was_called(next);
        u.lemma_kept(t);
        u.lemma_reply_kept(t, s.len());
        assert(u.trace[s.len()] == t.trace[s.len()]);
        assert(u.calls_at(s.len(), read));
        s.lemma_kept(run);
        assert(gap_is_wide(u, run.len(), f)) by {
            reveal(gap_is_wide);
        }
        lemma_gap_later(u, end, run.len(), f);
    }
}

/// What is done for a link of some speed and duplex: the inter-packet gap, the
/// receive latency of the PHY, and from Lynx Point on its clock.
pub open spec fn link_is_tuned(
    end: Run,
    from: int,
    f: PhyAccess,
    mac_type: MacType,
    speed: u16,
    duplex: u16,
) -> bool {
    let slow = duplex == 1 && speed == 10;
    let wide = sunrise_point_on(mac_type) && duplex == 2 && speed != 1000;
    &&& slow ==> end.rewrote(from, 0x410, 0x3FF, 0xFF)
    &&& !slow && wide ==> end.rewrote(from, 0x410, 0x3FF, 0x0C)
    &&& !slow && !wide ==> end.rewrote(from, 0x410, 0x3FF, 0x08)
    &&& mac_type == MacType::Mac_pch2lan && slow ==> end.wrote_emi(from, 0x3412, 0)
    &&& mac_type == MacType::Mac_pch2lan && !slow ==> end.wrote_emi(from, 0x3412, 1)
    &&& mac_type != MacType::Mac_pch2lan && slow ==> end.wrote_emi(from, 0xB20C, 0)
    &&& mac_type != MacType::Mac_pch2lan && !slow ==> end.wrote_emi(from, 0xB20C, 1)
    &&& lynx_point_on(mac_type) ==> clock_is_tuned(end, from, f, speed)
}

proof fn lemma_tune_link(run: Run, f: PhyAccess, mac_type: MacType, device_id: u16)
    requires
        run.device_is(mac_type, device_id),
        !run.tune_link(f).0.stalled,
    ensures
        ({
            let (end, r) = run.tune_link(f);
            let a = run.call(Call::GetSpeedAndDuplexCopperGeneric(0, 0)).1;
            let (speed, duplex) = (a.value as u16, a.extra as u16);
            &&& end.calls_at(end.len() - 1, Call::PhyAcquire) || link_is_tuned(
                end,
                run.len(),
                f,
                mac_type,
                speed,
                duplex,
            )
            &&& r is Ok ==> link_is_tuned(end, run.len(), f, mac_type, speed, duplex)
            &&& r is Ok && sunrise_point_on(mac_type) ==> {
                &&& speed != 1000 ==> end.called(
                    run.len(),
                    Call::OpWriteReg(f.write_locked, 0x6114, 0xC023),
                )
                &&& speed == 1000 ==> gap_is_wide(end, run.len(), f)
            }
        }),
{
    broadcast use {
        group_resumes,
        group_events,
        Run::law_access_emi_resumes,
        Run::law_write_emi_resumes,
        Run::law_tune_pll_resumes,
        Run::law_tune_ptr_gap_resumes,
        lemma_tune_pll,
        lemma_tune_ptr_gap,
        lemma_gap_anchored,
    };

    reveal(Run::tune_link);
    run.lemma_start();
}

/// Whether every PHY access function that watching the link needs is there.
pub open spec fn has_access(run: Run) -> bool {
    let ops = run.hw.phy.ops;
    ops.read_reg is Some && ops.read_reg_locked is Some && ops.write_reg is Some
        && ops.write_reg_locked is Some
}

/// Those functions.
pub open spec fn access(run: Run) -> PhyAccess {
    let ops = run.hw.phy.ops;
    PhyAccess {
        read: ops.read_reg->0,
        read_locked: ops.read_reg_locked->0,
        write: ops.write_reg->0,
        write_locked: ops.write_reg_locked->0,
    }
}

/// A link that is found to be up has MAC and PHY tuned to its speed and duplex,
/// on every family from PCH2 on: wherever the check does not end with failing
/// to acquire the PHY.
pub proof fn law_link_up_is_tuned(run: Run, mac_type: MacType, device_id: u16)
    requires
        run.hw.mac.get_link_status,
        has_access(run),
        run.device_is(mac_type, device_id),
        mac_type == MacType::Mac_pch2lan || lynx_point_on(mac_type),
        !run.check_for_copper_link().0.stalled,
        ({
            let a = run.call(Call::HasLinkGeneric(1, 0, false)).1;
            a.result is Ok && a.value != 0
        }),
    ensures
        ({
            let (end, r) = run.check_for_copper_link();
            let s = run.call(Call::HasLinkGeneric(1, 0, false)).0;
            let a = s.call(Call::GetSpeedAndDuplexCopperGeneric(0, 0)).1;
            let (speed, duplex) = (a.value as u16, a.extra as u16);
            let f = access(run);
            &&& !end.calls_at(end.len() - 1, Call::PhyAcquire) || r is Ok ==> link_is_tuned(
                end,
                run.len(),
                f,
                mac_type,
                speed,
                duplex,
            )
            &&& r is Ok && sunrise_point_on(mac_type) ==> {
                &&& speed != 1000 ==> end.called(
                    run.len(),
                    Call::OpWriteReg(f.write_locked, 0x6114, 0xC023),
                )
                &&& speed == 1000 ==> gap_is_wide(end, run.len(), f)
            }
        }),
{
    broadcast use {
        group_resumes,
        group_events,
        Run::law_with_lp_ability_resumes,
        Run::law_tune_link_resumes,
        Run::law_set_beacon_resumes,
        Run::law_k1_workaround_resumes,
        Run::law_platform_pm_resumes,
        Run::law_settle_k1_off_resumes,
        Run::law_check_either_way_resumes,
        Run::law_link_is_up_resumes,
        lemma_gap_anchored,
        lemma_gap_later,
    };

    reveal(Run::check_either_way);
    run.lemma_start();
    let s = run.call(Call::HasLinkGeneric(1, 0, false)).0;
    let f = access(run);
    lemma_tune_link(s, f, mac_type, device_id);
}

/// From Lynx Point on a check that succeeds has set the beacon duration to
/// 8 us, whether or not there is a link. Without one, it has withdrawn the
/// latency requirement; with one, it has stated the same requirement for
/// snooped and other accesses. Either way buffer flushing is enabled with the
/// interrupts unblocked. The devices that hang without it go through the K1
/// workaround, and what may be switched off in K1 is settled.
pub proof fn law_check_on_lynx_point(run: Run, mac_type: MacType, device_id: u16)
    requires
        run.hw.mac.get_link_status,
        has_access(run),
        run.device_is(mac_type, device_id),
        lynx_point_on(mac_type),
        !run.check_for_copper_link().0.stalled,
        run.check_for_copper_link().1 is Ok,
    ensures
        ({
            let end = run.check_for_copper_link().0;
            let link = run.call(Call::HasLinkGeneric(1, 0, false)).1.value != 0;
            let from = run.len();
            &&& end.rewrote(from, 0x24, 0x7, 0x7)
            &&& end.rewrote(from, 0xF0, 0, 0x1001)
            &&& !link ==> end.did(from, Action::WriteRegister(0xF8, 0x4000_0000)) && end.rewrote(
                from,
                0xF4,
                0x1F,
                0,
            )
            &&& link ==> exists|w: u32| #[trigger]
                states_latency(w) && end.did(from, Action::WriteRegister(0xF8, w))
            &&& device_id == 0x155A || device_id == 0x1559 || device_id == 0x15A2 || device_id
                == 0x15A3 ==> exists|s: Run| #[trigger]
                s.continues(run) && end.continues(s.k1_workaround(link).0)
            &&& exists|s: Run| #[trigger] s.continues(run) && end.continues(s.settle_k1_off())
        }),
{
    broadcast use {
        group_resumes,
        group_events,
        Run::law_with_lp_ability_resumes,
        Run::law_tune_link_resumes,
        Run::law_set_beacon_resumes,
        Run::law_k1_workaround_resumes,
        Run::law_platform_pm_resumes,
        Run::law_settle_k1_off_resumes,
        Run::law_check_either_way_resumes,
        Run::law_link_is_up_resumes,
        lemma_platform_pm,
    };

    reveal(Run::check_either_way);
    reveal(Run::set_beacon);
    run.lemma_start();
    let (end, _) = run.check_for_copper_link();
    let (s0, a) = run.call(Call::HasLinkGeneric(1, 0, false));
    let link = a.value != 0;
    let (s1, _) = if link {
        s0.tune_link(access(run))
    } else {
        (s0, Ok(()))
    };
    let s2 = s1.set_beacon();
    let (s3, _) = if device_id == 0x155A || device_id == 0x1559 || device_id == 0x15A2 || device_id
        == 0x15A3 {
        s2.k1_workaround(link)
    } else {
        (s2, Ok(()))
    };
    let (s4, _) = s3.platform_pm(link);
    let s5 = s4.with_lp_ability(0);
    let s6 = s5.settle_k1_off();
    assert(s2.continues(run) && s5.continues(run));
    assert(end.continues(s3) && end.continues(s6)) by {
        s3.lemma_start();
        s6.lemma_start();
    }
}

/// Whether a value of the latency register has both requirements, the same
/// latency for either, and the send bit.
pub open spec fn states_latency(w: u32) -> bool {
    &&& w & 0x8000 != 0 && w & 0x8000_0000 != 0 && w & 0x4000_0000 != 0
}

pub broadcast proof fn lemma_platform_pm(run: Run, link: bool)
    requires
        !run.platform_pm(link).0.stalled,
        run.platform_pm(link).1 is Ok,
    ensures
        ({
            let end = (#[trigger] run.platform_pm(link)).0;
            let from = run.len();
            &&& end.rewrote(from, 0xF0, 0, 0x1001)
            &&& !link ==> end.did(from, Action::WriteRegister(0xF8, 0x4000_0000)) && end.rewrote(
                from,
                0xF4,
                0x1F,
                0,
            )
            &&& link ==> exists|w: u32| #[trigger]
                states_latency(w) && end.did(from, Action::WriteRegister(0xF8, w))
        }),
{
    broadcast use {
        group_resumes,
        group_events,
        Run::law_op_link_up_info_resumes,
        Run::law_program_ltr_resumes,
        lemma_program_ltr,
    };

    reveal(Run::platform_pm);
    run.lemma_start();
    assert forall|enc: u16| states_latency(#[trigger] ltrv_up(enc)) by {
        let e = enc as u32;
        assert({
            let l = (1u32 << (15u32 + 16u32) as u32) | (1u32 << 15u32) | 0x4000_0000 | (e | (e
                << 16u32));
            l & 0x8000 != 0 && l & 0x8000_0000 != 0 && l & 0x4000_0000 != 0
        }) by (bit_vector);
    }
}

pub broadcast proof fn lemma_program_ltr(run: Run, ltrv: u32, high_water: u32)
    requires
        !run.program_ltr(ltrv, high_water).stalled,
    ensures
        ({
            let end = #[trigger] run.program_ltr(ltrv, high_water);
            let from = run.len();
            &&& end.did(from, Action::WriteRegister(0xF8, ltrv))
            &&& end.rewrote(from, 0xF4, 0x1F, high_water)
            &&& end.rewrote(from, 0xF0, 0, 0x1001)
        }),
{
    broadcast use {group_resumes, group_events};

    reveal(Run::program_ltr);
    run.lemma_start();
    let s = run.write_register(0xF8, ltrv).modify_register(0xF4, 0x1F, high_water);
    let v = s.read_register(0xF0).1;
    lemma_bits_32(v);
    assert(run.program_ltr(ltrv, high_water) == s.modify_register(0xF0, 0, 0x1001));
}

/// A check that finds no link, from PCH2 on, ends there: the status is still to
/// be fetched. One that cannot tell ends with the error of looking.
pub proof fn law_no_link(run: Run)
    requires
        run.hw.mac.get_link_status,
        has_access(run),
    ensures
        ({
            let (s, a) = run.call(Call::HasLinkGeneric(1, 0, false));
            let (end, r) = run.check_for_copper_link();
            &&& a.result is Err ==> (end, r) == (s, a.result)
            &&& a.result is Ok && s.hw.mac.mac_type == MacType::Mac_pchlan ==> (end, r)
                == s.incomplete(Feature::CheckLinkPchlan)
            &&& a.result is Ok && s.hw.mac.mac_type != MacType::Mac_pchlan && a.value == 0 ==> {
                let (t, checked) = s.check_either_way(access(run), false);
                &&& end == t && (r is Ok <==> checked is Ok)
                &&& checked is Err ==> r == checked
            }
        }),
{
}

/// A link that is up is finished: the PHY is asked whether it has shifted down,
/// energy efficient Ethernet is set up on PHYs after the 82579, and if the
/// speed is negotiated the collision distance is configured by the function
/// for it and flow control last. A speed that is not negotiated is an error.
pub proof fn law_link_is_finished(run: Run)
    requires
        !run.finish_link().0.stalled,
    ensures
        ({
            let (end, r) = run.finish_link();
            let s = run.call(Call::CheckDownshiftGeneric).0;
            let new = s.hw.phy.phy_type == PhyType::Type_i217 || s.hw.phy.phy_type
                == PhyType::Type_newer;
            let (t, eee) = s.set_eee();
            let u = if new {
                t
            } else {
                s
            };
            &&& end.calls_at(run.len(), Call::CheckDownshiftGeneric)
            &&& new && eee is Err ==> (end, r) == (t, eee)
            &&& !(new && eee is Err) && !u.hw.mac.autoneg ==> (end, r) == (
                u,
                Err::<(), Error>(Error::AutonegNotSet),
            )
            &&& !(new && eee is Err) && u.hw.mac.autoneg && u.hw.mac.ops.config_collision_dist
                is Some ==> {
                let op = Call::Op(u.hw.mac.ops.config_collision_dist->0);
                let v = u.call(op).0;
                &&& end == v.call(Call::ConfigFcAfterLinkUpGeneric).0
                &&& r == v.call(Call::ConfigFcAfterLinkUpGeneric).1.result
            }
        }),
{
    broadcast use {group_resumes, group_events, Run::law_set_eee_resumes};

    reveal(Run::finish_link);
    run.lemma_start();
    let end = run.finish_link().0;
    let s = run.call(Call::CheckDownshiftGeneric).0;
    run.lemma_was_called(Call::CheckDownshiftGeneric);
    assert(end.continues(s)) by {
        s.lemma_start();
    }
    end.lemma_kept(s);
    assert(end.trace[run.len()] == s.trace[run.len()]);
}

/// On a link that is up the status is no longer to be fetched; it is finished
/// but on the families that need what is not implemented; and on PCH the
/// preambles are seen to before.
pub proof fn law_link_up_by_family(run: Run, f: PhyAccess)
    ensures
        ({
            let (end, r) = run.link_is_up(f);
            let s = run.link_status_known();
            let m = run.hw.mac.mac_type;
            &&& !s.hw.mac.get_link_status && s.trace == run.trace
            &&& m == MacType::Mac_pch2lan ==> (end, r) == s.incomplete(Feature::CheckLinkPch2lan)
            &&& m == MacType::Mac_pchlan && run.hw.phy.phy_type == PhyType::Type_82578 ==> (end, r)
                == s.incomplete(Feature::CheckLink82578)
            &&& m == MacType::Mac_pchlan && run.hw.phy.phy_type != PhyType::Type_82578 ==> (end, r)
                == s.set_preambles(f).finish_link()
            &&& m != MacType::Mac_pch2lan && m != MacType::Mac_pchlan ==> (end, r)
                == s.finish_link()
        }),
{
    reveal(Run::link_is_up);
    reveal(Run::link_status_known);
}

/// The PHY removes one preamble in half duplex and none in full duplex.
pub proof fn law_preambles(run: Run, f: PhyAccess)
    requires
        !run.set_preambles(f).stalled,
    ensures
        ({
            let end = run.set_preambles(f);
            let (s, a) = run.call(Call::OpReadReg(f.read, 0x6050, 0));
            let v = a.value as u16;
            let status = s.read_register(8).1;
            &&& status & 1 != 0 ==> end.calls_at(
                end.len() - 1,
                Call::OpWriteReg(f.write, 0x6050, v & !0x7000),
            )
            &&& status & 1 == 0 ==> end.calls_at(
                end.len() - 1,
                Call::OpWriteReg(f.write, 0x6050, (v & !0x7000) | 0x1000),
            )
        }),
{
    broadcast use {group_resumes, group_events};

    reveal(Run::set_preambles);
    run.lemma_start();
    let s = run.call(Call::OpReadReg(f.read, 0x6050, 0)).0;
    let status = s.read_register(8).1;
    lemma_bits_32(status);
}

/// The speed and duplex are those that the MAC has settled on; only an IGP3 PHY
/// on ICH8 needs more, once they are known.
pub proof fn law_speed_and_duplex(run: Run, speed: u16, duplex: u16)
    ensures
        ({
            let (end, r, s, d) = run.link_up_info(speed, duplex);
            let (t, a) = run.call(Call::GetSpeedAndDuplexCopperGeneric(speed, duplex));
            let more = t.hw.mac.mac_type == MacType::Mac_ich8lan && t.hw.phy.phy_type
                == PhyType::Type_igp_3;
            &&& s == a.value as u16 && d == a.extra as u16
            &&& a.result is Err || !more ==> end == t && r == a.result
            &&& a.result is Ok && more ==> (end, r) == t.incomplete(Feature::LinkUpInfoIgp3)
        }),
{
    reveal(Run::link_up_info);
}

} // verus!
