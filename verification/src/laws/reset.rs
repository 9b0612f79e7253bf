//! Resetting and initializing the hardware: what has been done to the device
//! once that succeeds.

use vstd::prelude::*;
use crate::bits::lemma_bits_32;
use crate::error::Error;
use crate::events::group_events;
use crate::hw::{MacType, PhyType};
use crate::io::{Action, Call, Feature, Reply, Run};
use crate::laws::link::lynx_point_on;
use crate::laws::phy_config::{lemma_post_phy_reset, pch_on, phy_is_set_up};
use crate::resume::group_resumes;

verus! {

/// Whether the device was made quiet: bus mastering disabled, interrupts
/// masked, receiver and transmitter stopped, and time given to what is under
/// way; and on ICH8 the packet buffer divided up anew.
pub open spec fn is_quiet(end: Run, from: int, mac_type: MacType) -> bool {
    &&& end.called(from, Call::DisablePcieMasterGeneric)
    &&& end.did(from, Action::WriteRegister(0xD8, 0xFFFF_FFFF))
    &&& end.did(from, Action::WriteRegister(0x100, 0))
    &&& end.did(from, Action::WriteRegister(0x400, 0x8))
    &&& end.did(from, Action::MsecDelay(10))
    &&& mac_type == MacType::Mac_ich8lan ==> end.did(from, Action::WriteRegister(0x1000, 0x8))
        && end.did(from, Action::WriteRegister(0x1008, 0x10))
}

pub broadcast proof fn lemma_quiesce(run: Run, mac_type: MacType, device_id: u16)
    requires
        #[trigger] run.device_is(mac_type, device_id),
        !run.quiesce().stalled,
    ensures
        is_quiet(#[trigger] run.quiesce(), run.len(), mac_type),
{
    broadcast use {group_resumes, group_events};

    reveal(Run::quiesce);
    run.lemma_start();
}

/// Whether the last steps of a reset were taken: interrupts masked and those
/// pending cleared, the bias of the Kumeran interface set, and on PCH noise
/// made to show as CRC errors.
pub open spec fn is_finished(end: Run, from: int, mac_type: MacType) -> bool {
    &&& end.did(from, Action::WriteRegister(0xD8, 0xFFFF_FFFF))
    &&& exists|v: u32| #[trigger] end.saw(from, 0xC0, v)
    &&& end.did(from, Action::SetRegisterBit(0x3004, 0x0005_0000))
    &&& mac_type == MacType::Mac_pchlan ==> end.did(
        from,
        Action::WriteRegister(0x5F50, 0x6565_6565),
    )
}

proof fn lemma_finish_reset(run: Run, start: Run, mac_type: MacType, device_id: u16)
    requires
        run.device_is(mac_type, device_id),
        run.continues(start),
        !run.finish_reset().stalled,
    ensures
        is_finished(run.finish_reset(), start.len(), mac_type),
{
    broadcast use {group_resumes, group_events};

    reveal(Run::finish_reset);
    start.lemma_start();
    assert(run.reached_from(start)) by {
        reveal(Run::reached_from);
    }
    let s = if mac_type == MacType::Mac_pchlan {
        run.write_register(0x5F50, 0x6565_6565)
    } else {
        run
    };
    let t = s.write_register(0xD8, 0xFFFF_FFFF);
    assert(run.finish_reset().saw(start.len(), 0xC0, t.read_register(0xC0).1));
}

/// A reset that succeeds has first made the device quiet; then, at some place
/// `k`, reset the MAC by its control register, and the PHY with it unless the
/// firmware was found to block that; waited; made the PHY ready if it was
/// reset and the firmware still does not block it; and finished.
pub open spec fn is_reset(end: Run, from: int, mac_type: MacType, k: int) -> bool {
    &&& from <= k < end.len() - 1
    &&& end.trace[k] matches Action::WriteRegister(reg, w)
    &&& reg == 0
    &&& w & 0x0400_0000 != 0
    &&& end.trace[k + 1] == Action::MsecDelay(20)
    &&& is_quiet(end, from, mac_type)
    &&& is_finished(end, k, mac_type)
    &&& exists|i: int|
        {
            &&& from <= i < k
            &&& #[trigger] end.calls_at(i, Call::CheckResetBlock)
            &&& end.reply_to(i) matches Reply::Returned(r)
            &&& r.result is Ok && r.value == 0 ==> w & 0x8000_0000 != 0
        }
    &&& w & 0x8000_0000 != 0 && pch_on(mac_type) ==> phy_is_set_up(end, k + 1, mac_type)
    &&& mac_type == MacType::Mac_pch2lan ==> end.rewrote(k, 0x3C, 0x0C00_0000, 0x0800_0000)
}

/// Whatever comes of the firmware's word, a reset that succeeds has reset the
/// MAC and done all that goes with it.
pub proof fn law_device_is_reset(run: Run, mac_type: MacType, device_id: u16)
    requires
        run.device_is(mac_type, device_id),
        !run.reset_hw().0.stalled,
        run.reset_hw().1 is Ok,
    ensures
        exists|k: int| is_reset(run.reset_hw().0, run.len(), mac_type, k),
{
    broadcast use {
        group_resumes,
        group_events,
        Run::law_quiesce_resumes,
        Run::law_save_k1_setting_resumes,
        Run::law_plan_reset_resumes,
        Run::law_gate_if_unmanaged_resumes,
        Run::law_acquire_swflag_resumes,
        Run::law_issue_reset_resumes,
        Run::law_op_get_cfg_done_resumes,
        Run::law_post_phy_reset_resumes,
        Run::law_await_phy_resumes,
        Run::law_finish_reset_resumes,
        lemma_quiesce,
    };

    reveal(Run::reset_hw);
    reveal(Run::plan_reset);
    reveal(Run::issue_reset);
    reveal(Run::await_phy);
    run.lemma_start();
    let end = run.reset_hw().0;
    let s1 = run.quiesce().save_k1_setting().0;
    let (s2, ctrl) = s1.plan_reset();
    let t0 = s2.acquire_swflag().0;
    let w = ctrl | 0x0400_0000;
    let t1 = t0.write_register(0, w);
    let t2 = t1.msec_delay(20);
    let s3 = s2.issue_reset(ctrl);
    let s5 = if ctrl & 0x8000_0000 != 0 {
        s3.await_phy().0
    } else {
        s3
    };
    assert(end == s5.finish_reset());
    let k = t0.len();
    assert(end.continues(t0) && end.continues(t1) && end.continues(t2)) by {
        t0.lemma_start();
        t1.lemma_start();
        t2.lemma_start();
    }
    assert(t1.continues(t0));
    assert(t2.trace[k] == Action::WriteRegister(0, w) && t2.trace[k + 1] == Action::MsecDelay(20)
        && t2.len() == k + 2 && t1.len() == k + 1) by {
        reveal(Run::act);
    }
    end.lemma_kept(t2);
    assert(end.trace[k] == t2.trace[k] && end.trace[k + 1] == t2.trace[k + 1]);
    t0.lemma_kept(run);
    // The firmware is asked before the reset.
    let c = s1.read_register(0).0;
    let d = c.call(Call::CheckResetBlock).0;
    c.lemma_was_called(Call::CheckResetBlock);
    assert(t0.continues(d)) by {
        d.lemma_start();
    }
    assert(end.continues(d)) by {
        d.lemma_start();
    }
    end.lemma_kept(d);
    t0.lemma_kept(d);
    c.lemma_kept(run);
    end.lemma_reply_kept(d, c.len());
    assert(end.trace[c.len()] == d.trace[c.len()]);
    assert(end.calls_at(c.len(), Call::CheckResetBlock));
    let v = s1.read_register(0).1;
    lemma_bits_32(v);
    lemma_bits_32(ctrl);
    // The PHY is made ready after it.
    if ctrl & 0x8000_0000 != 0 && pch_on(mac_type) {
        let s4 = s3.op_get_cfg_done().0;
        assert(s4.continues(t1)) by {
            t1.lemma_start();
        }
        assert(end.continues(s4.post_phy_reset().0));
        lemma_post_phy_reset(s4, t1, end, mac_type, device_id);
    }
    assert(s5.continues(t0)) by {
        t0.lemma_start();
    }
    lemma_finish_reset(s5, t0, mac_type, device_id);
    if mac_type == MacType::Mac_pch2lan {
        assert(t2.continues(t0)) by {
            t0.lemma_start();
        }
        assert(s3 == t2.modify_register(0x3C, 0x0C00_0000, 0x0800_0000));
        assert(t2.reached_from(t0)) by {
            reveal(Run::reached_from);
        }
        assert(s3.rewrote(k, 0x3C, 0x0C00_0000, 0x0800_0000));
        assert(end.continues(s3)) by {
            s3.lemma_start();
        }
    }
    assert(is_reset(end, run.len(), mac_type, k));
}

/// On PCH the K1 setting of the NVM is saved before a reset: it is what word
/// 0x1B has in its lowest bit.
pub proof fn law_k1_setting_is_saved(run: Run, mac_type: MacType, device_id: u16)
    requires
        run.device_is(mac_type, device_id),
    ensures
        ({
            let (end, r) = run.save_k1_setting();
            let (s, a) = run.call(Call::NvmReadWord(0x1B, 0));
            &&& mac_type != MacType::Mac_pchlan ==> end == run && r is Ok
            &&& mac_type == MacType::Mac_pchlan ==> {
                &&& r is Ok <==> a.result is Ok
                &&& r is Err ==> r == a.result
                &&& end.trace == s.trace
                &&& a.result is Ok ==> (end.hw.dev_spec.nvm_k1_enabled <==> (a.value as u16) & 1
                    != 0)
            }
        }),
{
    reveal(Run::save_k1_setting);
    reveal(Run::with_nvm_k1);
    run.lemma_device_known(mac_type, device_id);
}

/// What initializing the hardware bits does, by family.
pub proof fn law_hw_bits(run: Run, mac_type: MacType, device_id: u16)
    requires
        run.device_is(mac_type, device_id),
        !run.initialize_hw_bits().stalled,
    ensures
        ({
            let end = run.initialize_hw_bits();
            let from = run.len();
            let ich8 = mac_type == MacType::Mac_ich8lan;
            &&& mac_type == MacType::Mac_pchlan ==> end.rewrote(from, 0x18, 0, 0x0050_0000)
            &&& mac_type != MacType::Mac_pchlan ==> end.rewrote(from, 0x18, 0, 0x0040_0000)
            &&& end.did(from, Action::SetRegisterBit(0x3828, 0x0040_0000))
            &&& end.did(from, Action::SetRegisterBit(0x3928, 0x0040_0000))
            &&& ich8 ==> end.rewrote(from, 0x3840, 0, 0x3D80_0000)
            &&& !ich8 ==> end.rewrote(from, 0x3840, 0, 0x0D80_0000)
            &&& exists|tarc1: u32, tctl: u32|
                {
                    &&& #[trigger] end.saw(from, 0x3940, tarc1)
                    &&& #[trigger] end.saw(from, 0x400, tctl)
                    &&& tctl & 0x1000_0000 != 0 ==> end.did(
                        from,
                        Action::WriteRegister(0x3940, (tarc1 & !0x1000_0000) | 0x4500_0000),
                    )
                    &&& tctl & 0x1000_0000 == 0 ==> end.did(
                        from,
                        Action::WriteRegister(0x3940, (tarc1 | 0x1000_0000) | 0x4500_0000),
                    )
                }
            &&& ich8 ==> end.did(from, Action::ClearRegisterBit(8, 0x8000_0000))
            &&& ich8 ==> end.rewrote(from, 0x5008, 0, 0x0003_00C0)
            &&& !ich8 ==> end.rewrote(from, 0x5008, 0, 0x0000_00C0)
            &&& lynx_point_on(mac_type) ==> end.did(
                from,
                Action::SetRegisterBit(0x100C, 0x0001_0000),
            ) && end.did(from, Action::SetRegisterBit(0, 0x0008_0000))
        }),
{
    broadcast use {group_resumes, group_events};

    reveal(Run::initialize_hw_bits);
    reveal(Run::initialize_queues);
    reveal(Run::initialize_filters);
    run.lemma_start();
    let end = run.initialize_hw_bits();
    let pch = mac_type == MacType::Mac_pchlan;
    let ich8 = mac_type == MacType::Mac_ich8lan;
    assert forall|v: u32| #[trigger]
        (v | 0x0040_0000) == (v & !0) | 0x0040_0000 && (v | 0x0040_0000) | 0x0010_0000 == (v & !0)
            | 0x0050_0000 by {
        lemma_bits_32(v);
    }
    let a1 = if pch {
        run.modify_register(0x18, 0, 0x0050_0000)
    } else {
        run.modify_register(0x18, 0, 0x0040_0000)
    };
    let a2 = a1.set_register_bit(0x3828, 0x0040_0000).set_register_bit(0x3928, 0x0040_0000);
    let a3 = if ich8 {
        a2.modify_register(0x3840, 0, 0x3D80_0000)
    } else {
        a2.modify_register(0x3840, 0, 0x0D80_0000)
    };
    lemma_bits_32(a2.read_register(0x3840).1);
    let (a4, tarc1) = a3.read_register(0x3940);
    let (a5, tctl) = a4.read_register(0x400);
    let b = a1.initialize_queues();
    assert(b.continues(a3) && b.continues(a5)) by {
        a3.lemma_start();
        a5.lemma_start();
    }
    let c = if ich8 {
        b.clear_register_bit(8, 0x8000_0000)
    } else {
        b
    };
    lemma_bits_32(c.read_register(0x5008).1);
    let d = if ich8 {
        c.modify_register(0x5008, 0, 0x0003_00C0)
    } else {
        c.modify_register(0x5008, 0, 0x0000_00C0)
    };
    assert(b.initialize_filters() == d);
    assert(end.saw(run.len(), 0x3940, tarc1));
    assert(end.saw(run.len(), 0x400, tctl));
}

/// Waiting for the configuration. From ICH10 on, success means that the MAC was
/// looked at until it has finished its basic configuration, the indication of
/// that cleared, and a valid bank found. Before, an automatic read that fails
/// is passed over, and an IGP3 PHY without EEPROM needs what is not
/// implemented. An indication that the PHY was reset is cleared.
pub proof fn law_configuration_is_done(run: Run, mac_type: MacType, device_id: u16)
    requires
        run.device_is(mac_type, device_id),
        !run.get_cfg_done().0.stalled,
    ensures
        ({
            let (end, r) = run.get_cfg_done();
            let s = run.call(Call::GetCfgDoneGeneric).0;
            let (t, read) = s.call(Call::GetAutoRdDoneGeneric);
            let from = run.len();
            let new = mac_type == MacType::Mac_ich10lan || pch_on(mac_type);
            &&& end.calls_at(from, Call::GetCfgDoneGeneric)
            &&& new ==> {
                &&& end.did(from, Action::ClearRegisterBit(8, 0x200))
                &&& exists|u: Run| #[trigger]
                    u.continues(run) && (end, r) == (u.detect_bank().0, u.detect_bank().1)
            }
            &&& !new ==> end.called(from, Call::GetAutoRdDoneGeneric)
            &&& !new && read.result is Err ==> (end, r) == (t, Ok::<(), Error>(()))
            &&& new || read.result is Ok ==> exists|u: Run| #[trigger]
                u.continues(run) && end.continues(u.clear_phy_reset_asserted())
            &&& !new && read.result is Ok ==> exists|eecd: u32|
                {
                    &&& #[trigger] end.saw(from, 0x10, eecd)
                    &&& eecd & 0x100 == 0 && t.hw.phy.phy_type == PhyType::Type_igp_3
                        ==> end.calls_at(end.len() - 1, Call::Incomplete(Feature::PhyInitScriptIgp3))
                    &&& eecd & 0x100 != 0 || t.hw.phy.phy_type != PhyType::Type_igp_3 ==> r is Ok
                }
        }),
{
    broadcast use {
        group_resumes,
        group_events,
        Run::law_lan_init_done_resumes,
        Run::law_poll_init_done_resumes,
        Run::law_clear_phy_reset_asserted_resumes,
        Run::law_require_configuration_resumes,
        Run::law_detect_bank_resumes,
    };

    reveal(Run::get_cfg_done);
    reveal(Run::require_configuration);
    reveal(Run::lan_init_done);
    run.lemma_start();
    let (end, r) = run.get_cfg_done();
    let s = run.call(Call::GetCfgDoneGeneric).0;
    run.lemma_was_called(Call::GetCfgDoneGeneric);
    assert(end.continues(s)) by {
        s.lemma_start();
    }
    end.lemma_kept(s);
    assert(end.trace[run.len()] == s.trace[run.len()]);
    let new = mac_type == MacType::Mac_ich10lan || pch_on(mac_type);
    let (t, read) = s.call(Call::GetAutoRdDoneGeneric);
    let u = if new {
        s.lan_init_done()
    } else {
        t
    };
    if new || read.result is Ok {
        let w = u.clear_phy_reset_asserted();
        assert(u.continues(run) && w.continues(run));
        assert(end.continues(w)) by {
            w.lemma_start();
        }
        if !new {
            let (x, eecd) = w.read_register(0x10);
            assert(w.hw == t.hw) by {
                reveal(Run::clear_phy_reset_asserted);
            }
            assert(end.continues(x)) by {
                x.lemma_start();
            }
            assert(end.saw(run.len(), 0x10, eecd));
        }
    }
}

/// The indication that the PHY was reset is cleared if it is there, and
/// nothing else is written.
pub proof fn law_reset_indication(run: Run)
    ensures
        ({
            let (s, status) = run.read_register(8);
            &&& status & 0x400 != 0 ==> run.clear_phy_reset_asserted() == s.act(
                Action::WriteRegister(8, status & !0x400),
            )
            &&& status & 0x400 == 0 ==> run.clear_phy_reset_asserted() == s
        }),
{
    reveal(Run::clear_phy_reset_asserted);
}

} // verus!
