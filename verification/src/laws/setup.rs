//! Setting up link, flow control, receiver and transmitter, and clearing the
//! counters.

use vstd::prelude::*;
use crate::bits::lemma_setup_bits;
use crate::counters::{law_each_is_read, mac_counters, phy_counters};
use crate::error::Error;
use crate::events::group_events;
use crate::hw::{FcMode, Func, MacType, PhyType};
use crate::io::{Action, Call, Run};
use crate::resume::group_resumes;

verus! {

/// Whether a PHY is one of those that PCH MACs come with.
pub open spec fn is_pch_phy(phy_type: PhyType) -> bool {
    phy_type == PhyType::Type_82577 || phy_type == PhyType::Type_82578 || phy_type
        == PhyType::Type_82579 || phy_type == PhyType::Type_i217
}

/// The MAC is let set the link up, with neither speed nor duplex forced, and
/// then the PHY is set up.
pub proof fn law_copper_link_is_set_up(run: Run)
    requires
        !run.setup_copper_link().0.stalled,
    ensures
        ({
            let (end, r) = run.setup_copper_link();
            let ctrl = run.read_register(0).1;
            let from = run.len();
            &&& exists|w: u32|
                {
                    &&& #[trigger] end.did(from, Action::WriteRegister(0, w))
                    &&& w & 0x0040 != 0
                    &&& w & 0x1800 == 0
                    &&& w & !0x1840 == ctrl & !0x1840
                }
            &&& end.called(from, Call::CopperLinkSetup82577)
            &&& r is Ok ==> end.calls_at(end.len() - 1, Call::SetupCopperLinkGeneric)
        }),
{
    broadcast use {group_resumes, group_events};

    reveal(Run::setup_copper_link);
    run.lemma_start();
    let end = run.setup_copper_link().0;
    let ctrl = run.read_register(0).1;
    lemma_setup_bits(ctrl);
    assert(end.did(
        run.len(),
        Action::WriteRegister(0, (ctrl | 0x0040) & !(0x0800u32 | 0x1000u32)),
    ));
}

/// The pause time is written to the MAC; with a PCH PHY the refresh time too,
/// and the pause time to the PHY; and the watermarks are set.
pub proof fn law_flow_control_is_set_up(run: Run)
    requires
        !run.setup_flow_control().0.stalled,
        run.setup_flow_control().1 is Ok,
    ensures
        ({
            let end = run.setup_flow_control().0;
            let from = run.len();
            let fc = run.hw.fc;
            &&& end.did(from, Action::WriteRegister(0x170, fc.pause_time as u32))
            &&& is_pch_phy(run.hw.phy.phy_type) ==> {
                &&& end.did(from, Action::WriteRegister(0x5F40, fc.refresh_time as u32))
                &&& end.called(from, Call::PhyWriteReg(0x603B, fc.pause_time))
            }
            &&& end.calls_at(end.len() - 1, Call::SetFcWatermarksGeneric)
        }),
{
    broadcast use {group_resumes, group_events};

    reveal(Run::setup_flow_control);
    run.lemma_start();
}

/// Setting up the link does nothing while the firmware blocks resets of the
/// PHY. Otherwise the flow control mode to begin with is the one requested,
/// full for the default, and is in place when the physical interface is set up;
/// the flow control follows.
pub proof fn law_link_is_set_up(run: Run)
    requires
        !run.setup_link().0.stalled,
    ensures
        ({
            let (end, r) = run.setup_link();
            let (s, a) = run.call(Call::CheckResetBlock);
            let blocked = a.result is Ok && a.value != 0;
            let asked = s.hw.fc.requested_mode;
            let mode = if asked == FcMode::Default {
                FcMode::Full
            } else {
                asked
            };
            &&& blocked ==> (end, r) == (s, Ok::<(), Error>(()))
            &&& !blocked && r is Ok ==> exists|t: Run, u: Run|
                {
                    &&& t.trace == s.trace
                    &&& t.hw.fc.requested_mode == mode && t.hw.fc.current_mode == mode
                    &&& t.hw.mac == s.hw.mac && t.hw.phy == s.hw.phy
                    &&& #[trigger] u.continues(t)
                    &&& t.hw.mac.ops.setup_physical_interface == Some(
                        Func::SetupCopperLinkPchLpt,
                    ) ==> u == t.setup_copper_link().0
                    &&& end == u.setup_flow_control().0
                }
        }),
{
    broadcast use {
        group_resumes,
        group_events,
        Run::law_op_setup_physical_interface_resumes,
        Run::law_setup_flow_control_resumes,
    };

    reveal(Run::setup_link);
    reveal(Run::op_setup_physical_interface);
    run.lemma_start();
    let s = run.call(Call::CheckResetBlock).0;
    let t = s.with_hw(s.hw.with_fc_mode());
    let u = t.op_setup_physical_interface().0;
    assert(u.continues(t));
}

/// A transmit queue's policy: a full descriptor is written back, 31 are
/// prefetched, and the rest of the register is kept.
pub proof fn law_tx_policy(txdctl: u32)
    ensures
        ({
            let w = crate::reset::tx_policy(txdctl);
            &&& w & 0x003F_0000 == 0x0001_0000
            &&& w & 0x0000_003F == 0x0000_001F
            &&& w & 0x0100_0000 != 0
            &&& w & !0x013F_003F == txdctl & !0x013F_003F
        }),
{
    lemma_setup_bits(txdctl);
}

/// The transmitter is set up: both queues have their policy, snooping is
/// enabled, which on ICH8 is said by bits of the opposite sense, and relaxed
/// ordering is disabled.
pub proof fn law_transmitter_is_set_up(run: Run, mac_type: MacType, device_id: u16)
    requires
        run.device_is(mac_type, device_id),
        !run.initialize_transmitter().stalled,
    ensures
        ({
            let end = run.initialize_transmitter();
            let from = run.len();
            &&& exists|v: u32|
                end.saw(from, 0x3828, v) && #[trigger] end.did(
                    from,
                    Action::WriteRegister(0x3828, crate::reset::tx_policy(v)),
                )
            &&& exists|v: u32|
                end.saw(from, 0x3928, v) && #[trigger] end.did(
                    from,
                    Action::WriteRegister(0x3928, crate::reset::tx_policy(v)),
                )
            &&& mac_type == MacType::Mac_ich8lan ==> end.called(
                from,
                Call::SetPcieNoSnoopGeneric(0x3F),
            )
            &&& mac_type != MacType::Mac_ich8lan ==> end.called(
                from,
                Call::SetPcieNoSnoopGeneric(0xFFFF_FFC0),
            )
            &&& end.did(from, Action::SetRegisterBit(0x18, 0x0002_0000))
        }),
{
    broadcast use {group_resumes, group_events};

    reveal(Run::initialize_transmitter);
    run.lemma_start();
    lemma_setup_bits(0);
    let end = run.initialize_transmitter();
    let (s, v) = run.read_register(0x3828);
    let t = s.write_register(0x3828, crate::reset::tx_policy(v));
    let w = t.read_register(0x3928).1;
    assert(end.saw(run.len(), 0x3828, v));
    assert(end.saw(run.len(), 0x3928, w));
    assert(end.did(run.len(), Action::WriteRegister(0x3828, crate::reset::tx_policy(v))));
    assert(end.did(run.len(), Action::WriteRegister(0x3928, crate::reset::tx_policy(w))));
}

/// Whether entries of the multicast table of the MAC were cleared.
pub open spec fn entries_cleared(end: Run, from: int, first: int, count: int) -> bool {
    forall|i: int|
        first <= i < count ==> end.did(
            from,
            #[trigger] cleared_entry(i),
        )
}

/// The operation that clears entry `i` of the table.
pub open spec fn cleared_entry(i: int) -> Action {
    Action::WriteRegisterArray(0x5200, i as u32, 0)
}

proof fn lemma_clear_mta(run: Run, start: Run, i: int, count: int)
    requires
        0 <= i,
        run.continues(start),
        !run.clear_mta(i, count).stalled,
    ensures
        entries_cleared(run.clear_mta(i, count), start.len(), i, count),
    decreases count - i,
{
    broadcast use {group_resumes, group_events, Run::law_clear_mta_resumes};

    if i < count {
        let s = run.act(cleared_entry(i));
        assert(run.reached_from(start)) by {
            reveal(Run::reached_from);
        }
        let end = s.clear_mta(i + 1, count);
        assert(end.continues(s));
        assert(s.did(start.len(), cleared_entry(i)));
        assert(s.continues(start)) by {
            start.lemma_start();
        }
        lemma_clear_mta(s, start, i + 1, count);
    }
}

/// The receiver is set up: the LEDs are initialized by the function for it,
/// the receive addresses are, and the whole multicast table is cleared.
pub proof fn law_receiver_is_set_up(run: Run)
    requires
        !run.initialize_receiver().stalled,
    ensures
        ({
            let end = run.initialize_receiver();
            let (s, _) = run.op_id_led_init();
            let t = s.call(Call::InitRxAddrsGeneric(s.hw.mac.rar_entry_count)).0;
            &&& run.hw.mac.ops.id_led_init == Some(Func::IdLedInitPchlan) ==> s
                == run.id_led_init().0
            &&& end.called(run.len(), Call::InitRxAddrsGeneric(s.hw.mac.rar_entry_count))
            &&& entries_cleared(end, run.len(), 0, t.hw.mac.mta_reg_count as int)
        }),
{
    broadcast use {
        group_resumes,
        group_events,
        Run::law_op_id_led_init_resumes,
        Run::law_clear_mta_resumes,
    };

    reveal(Run::initialize_receiver);
    reveal(Run::op_id_led_init);
    run.lemma_start();
    let (s, _) = run.op_id_led_init();
    let t = s.call(Call::InitRxAddrsGeneric(s.hw.mac.rar_entry_count)).0;
    assert(t.continues(run));
    lemma_clear_mta(t, run, 0, t.hw.mac.mta_reg_count as int);
}

/// Initializing the hardware goes through all of it: the hardware bits, the
/// receiver, the link by the function for it, the transmitter, and last the
/// counters. An error of setting up the link is reported in the end.
pub proof fn law_hardware_is_initialized(run: Run)
    ensures
        ({
            let (end, r) = run.init_hw();
            let s = run.initialize_hw_bits().initialize_receiver();
            let (t, link) = s.op_setup_link();
            let (u, counters) = t.initialize_transmitter().clear_counters();
            &&& end == u
            &&& r is Ok <==> link is Ok && counters is Ok
            &&& counters is Err ==> r == counters
            &&& counters is Ok && link is Err ==> r == link
            &&& s.hw.mac.ops.setup_link == Some(Func::SetupLinkIch8lan) ==> (t, link)
                == s.setup_link()
        }),
{
    reveal(Run::init_hw);
    reveal(Run::op_setup_link);
}

/// Clearing the counters reads those of the MAC, each once, after the generic
/// ones; and with a PCH PHY also those of the PHY, under the semaphore.
pub proof fn law_counters_are_cleared(run: Run)
    requires
        !run.clear_counters().0.stalled,
    ensures
        ({
            let end = run.clear_counters().0;
            let s = run.call(Call::ClearHwCntrsBaseGeneric).0;
            let n = s.len();
            &&& end.len() >= n + 11
            &&& end.trace[n] == Action::ReadRegister(0x4004)
            &&& end.trace[n + 1] == Action::ReadRegister(0x400C)
            &&& end.trace[n + 2] == Action::ReadRegister(0x4034)
            &&& end.trace[n + 3] == Action::ReadRegister(0x403C)
            &&& end.trace[n + 4] == Action::ReadRegister(0x40F8)
            &&& end.trace[n + 5] == Action::ReadRegister(0x40FC)
            &&& end.trace[n + 6] == Action::ReadRegister(0x40B4)
            &&& end.trace[n + 7] == Action::ReadRegister(0x40B8)
            &&& end.trace[n + 8] == Action::ReadRegister(0x40BC)
            &&& end.trace[n + 9] == Action::ReadRegister(0x4100)
            &&& end.trace[n + 10] == Action::ReadRegister(0x4124)
            &&& is_pch_phy(s.hw.phy.phy_type) ==> end.calls_at(n + 11, Call::PhyAcquire)
            &&& !is_pch_phy(s.hw.phy.phy_type) ==> end.len() == n + 11
        }),
{
    broadcast use {
        group_resumes,
        group_events,
        Run::law_read_each_resumes,
        Run::law_clear_phy_counters_resumes,
        Run::law_op_set_page_resumes,
        Run::law_read_each_by_resumes,
    };

    reveal(Run::clear_counters);
    run.lemma_start();
    let end = run.clear_counters().0;
    let s = run.call(Call::ClearHwCntrsBaseGeneric).0;
    let t = s.read_each(mac_counters(), 0);
    assert(end.continues(t)) by {
        t.lemma_start();
    }
    lemma_same_state(s, mac_counters(), 0);
    law_each_is_read(s, mac_counters(), 0);
    let regs = mac_counters().skip(0).map_values(|reg: u32| Action::ReadRegister(reg));
    assert(regs.len() == 11);
    end.lemma_kept(t);
    assert forall|k: int| 0 <= k < 11 implies #[trigger] end.trace[s.len() + k]
        == Action::ReadRegister(mac_counters()[k]) by {
        assert(t.trace[s.len() + k] == regs[k]);
    }
    assert(end.trace[s.len() + 0] == Action::ReadRegister(mac_counters()[0]));
    if is_pch_phy(s.hw.phy.phy_type) {
        reveal(Run::clear_phy_counters);
        let u = t.phy_acquire().0;
        assert(end.continues(u)) by {
            u.lemma_start();
        }
        t.lemma_was_called(Call::PhyAcquire);
        end.lemma_kept(u);
        assert(end.trace[t.len()] == u.trace[t.len()]);
    }
}

proof fn lemma_same_state(run: Run, regs: Seq<u32>, i: int)
    ensures
        run.read_each(regs, i).hw == run.hw,
    decreases regs.len() - i,
{
    broadcast use group_resumes;

    if i < regs.len() {
        lemma_same_state(run.read_register(regs[i]).0, regs, i + 1);
    }
}

proof fn lemma_read_each_by(run: Run, start: Run, f: Func, regs: Seq<u32>, i: int, data: u16)
    requires
        0 <= i,
        run.continues(start),
        !run.read_each_by(f, regs, i, data).0.stalled,
        run.read_each_by(f, regs, i, data).1 is Ok,
    ensures
        forall|k: int|
            i <= k < regs.len() ==> read_by(
                run.read_each_by(f, regs, i, data).0,
                start.len(),
                f,
                #[trigger] regs[k],
            ),
    decreases regs.len() - i,
{
    broadcast use {group_resumes, group_events, Run::law_read_each_by_resumes};

    if i < regs.len() {
        let end = run.read_each_by(f, regs, i, data).0;
        let (s, a) = run.call(Call::OpReadReg(f, regs[i], data));
        assert(run.reached_from(start)) by {
            reveal(Run::reached_from);
        }
        assert(s.continues(start)) by {
            start.lemma_start();
        }
        assert(end == s.read_each_by(f, regs, i + 1, a.value as u16).0);
        assert(end.continues(s));
        assert(end.called(start.len(), Call::OpReadReg(f, regs[i], data)));
        lemma_read_each_by(s, start, f, regs, i + 1, a.value as u16);
    }
}

/// Whether a register was read by function `f`.
pub open spec fn read_by(end: Run, from: int, f: Func, reg: u32) -> bool {
    exists|before: u16| #[trigger] end.called(from, Call::OpReadReg(f, reg, before))
}

/// Clearing the counters of the PHY, where it succeeds and the page of them
/// can be selected, has read all fourteen registers on page 778.
pub proof fn law_phy_counters_are_cleared(run: Run)
    requires
        !run.clear_phy_counters().0.stalled,
        run.clear_phy_counters().1 is Ok,
        run.call(Call::PhyAcquire).0.hw.phy.ops.set_page is Some,
    ensures
        ({
            let end = run.clear_phy_counters().0;
            let s = run.call(Call::PhyAcquire).0;
            let page = Call::OpSetPage(s.hw.phy.ops.set_page->0, 0x6140);
            let (t, a) = s.call(page);
            let from = run.len();
            &&& end.called(from, page)
            &&& a.result is Ok && t.hw.phy.ops.read_reg_page is Some ==> {
                let f = t.hw.phy.ops.read_reg_page->0;
                &&& read_by(end, from, f, 0x6150) && read_by(end, from, f, 0x6151)
                &&& read_by(end, from, f, 0x6152) && read_by(end, from, f, 0x6153)
                &&& read_by(end, from, f, 0x6154) && read_by(end, from, f, 0x6155)
                &&& read_by(end, from, f, 0x6157) && read_by(end, from, f, 0x6158)
                &&& read_by(end, from, f, 0x6159) && read_by(end, from, f, 0x615A)
                &&& read_by(end, from, f, 0x615B) && read_by(end, from, f, 0x615C)
                &&& read_by(end, from, f, 0x615D) && read_by(end, from, f, 0x615E)
            }
        }),
{
    broadcast use {
        group_resumes,
        group_events,
        Run::law_op_set_page_resumes,
        Run::law_read_each_by_resumes,
    };

    reveal(Run::clear_phy_counters);
    reveal(Run::op_set_page);
    lemma_setup_bits(0);
    run.lemma_start();
    let end = run.clear_phy_counters().0;
    let s = run.call(Call::PhyAcquire).0;
    let page = Call::OpSetPage(s.hw.phy.ops.set_page->0, 0x6140);
    let (t, a) = s.call(page);
    assert(t == s.op_set_page(0x6140).0);
    if a.result is Ok && t.hw.phy.ops.read_reg_page is Some {
        let f = t.hw.phy.ops.read_reg_page->0;
        let u = t.read_each_by(f, phy_counters(), 0, 0).0;
        assert(t.continues(run));
        lemma_read_each_by(t, run, f, phy_counters(), 0, 0);
        assert(end.continues(u));
        assert forall|k: int| 0 <= k < 14 implies read_by(
            end,
            run.len(),
            f,
            #[trigger] phy_counters()[k],
        ) by {
            assert(read_by(u, run.len(), f, phy_counters()[k]));
            let before = choose|before: u16| #[trigger]
                u.called(run.len(), Call::OpReadReg(f, phy_counters()[k], before));
            assert(end.called(run.len(), Call::OpReadReg(f, phy_counters()[k], before)));
        }
        assert(phy_counters()[0] == 0x6150 && phy_counters()[1] == 0x6151 && phy_counters()[2]
            == 0x6152 && phy_counters()[3] == 0x6153 && phy_counters()[4] == 0x6154
            && phy_counters()[5] == 0x6155 && phy_counters()[6] == 0x6157 && phy_counters()[7]
            == 0x6158 && phy_counters()[8] == 0x6159 && phy_counters()[9] == 0x615A
            && phy_counters()[10] == 0x615B && phy_counters()[11] == 0x615C && phy_counters()[12]
            == 0x615D && phy_counters()[13] == 0x615E);
    }
}

} // verus!
