//! The table of operations, the bus, and how long is waited for the flags that
//! are shared with firmware and hardware.

use vstd::prelude::*;
use crate::error::Error;
use crate::hw::{BusWidth, Func};
use crate::io::{Action, Call, Feature, Reply, Run};
use crate::laws::link::lynx_point_on;

verus! {

/// An operation that the table does not name fails with nothing done; one of
/// this library's own is that operation; any other is called.
pub proof fn law_operations(run: Run, page: u16, data: u16, res: Result<(), Error>)
    ensures
        ({
            let none = Err::<(), Error>(Error::NoFunction);
            let (mac, phy, nvm) = (run.hw.mac.ops, run.hw.phy.ops, run.hw.nvm.ops);
            &&& match mac.setup_physical_interface {
                None => run.op_setup_physical_interface() == (run, none),
                Some(f) => if f == Func::SetupCopperLinkPchLpt {
                    run.op_setup_physical_interface() == run.setup_copper_link()
                } else if f == Func::SetupCopperLinkIch8lan {
                    run.op_setup_physical_interface() == run.incomplete(
                        Feature::SetupCopperLinkIch8lan,
                    )
                } else {
                    run.op_setup_physical_interface() == run.invoke(Call::Op(f))
                },
            }
            &&& match phy.set_page {
                None => run.op_set_page(page) == (run, none),
                Some(f) => run.op_set_page(page) == run.invoke(Call::OpSetPage(f, page)),
            }
            &&& match phy.get_cfg_done {
                None => run.op_get_cfg_done() == (run, none),
                Some(f) => run.op_get_cfg_done() == if f == Func::GetCfgDoneIch8lan {
                    run.get_cfg_done()
                } else {
                    run.invoke(Call::Op(f))
                },
            }
            &&& match mac.id_led_init {
                None => run.op_id_led_init() == (run, none),
                Some(f) => run.op_id_led_init() == if f == Func::IdLedInitPchlan {
                    run.id_led_init()
                } else {
                    run.invoke(Call::Op(f))
                },
            }
            &&& match nvm.acquire {
                None => run.op_nvm_acquire() == (run, none),
                Some(f) => if f == Func::AcquireNvmIch8lan {
                    let (s, r) = run.op_nvm_acquire();
                    s == run.act(Action::AssertCtxLockHeld) && r is Ok
                } else {
                    run.op_nvm_acquire() == run.invoke(Call::Op(f))
                },
            }
            &&& match nvm.release {
                None => run.op_nvm_release_and(res) == (run, none),
                Some(f) => run.op_nvm_release_and(res) == if f == Func::ReleaseNvmIch8lan {
                    (run.act(Action::AssertCtxLockHeld), res)
                } else {
                    (run.call(Call::Op(f)).0, res)
                },
            }
            &&& match nvm.update {
                None => run.op_nvm_update() == (run, none),
                Some(f) => run.op_nvm_update() == if f == Func::UpdateNvmChecksumSpt {
                    run.incomplete(Feature::UpdateNvmChecksumSpt)
                } else if f == Func::UpdateNvmChecksumIch8lan {
                    run.incomplete(Feature::UpdateNvmChecksumIch8lan)
                } else {
                    run.invoke(Call::Op(f))
                },
            }
            &&& match nvm.valid_led_default {
                None => run.op_led_settings(data) == (run, none, data),
                Some(f) => run.op_led_settings(data) == if f == Func::ValidLedDefaultIch8lan {
                    run.led_settings(data)
                } else {
                    run.fetch(Call::OpLedDefault(f, data))
                },
            }
        }),
{
    reveal(Run::op_setup_physical_interface);
    reveal(Run::op_set_page);
    reveal(Run::op_get_cfg_done);
    reveal(Run::op_id_led_init);
    reveal(Run::op_nvm_acquire);
    reveal(Run::op_nvm_release_and);
    reveal(Run::op_nvm_update);
    reveal(Run::op_led_settings);
}

/// The width of the bus is as it was found, and one lane where none was found;
/// nothing else is changed, and the result is that of looking.
pub proof fn law_bus_width(run: Run)
    ensures
        ({
            let (end, r) = run.bus_info();
            let (s, a) = run.call(Call::GetBusInfoPcieGeneric);
            &&& r == a.result && end.trace == s.trace
            &&& s.hw.bus.width != BusWidth::Unknown ==> end == s
            &&& s.hw.bus.width == BusWidth::Unknown ==> {
                &&& end.hw.bus.width == BusWidth::Width_pcie_x1
                &&& end.hw.mac == s.hw.mac && end.hw.phy == s.hw.phy && end.hw.nvm == s.hw.nvm
                &&& end.hw.dev_spec == s.hw.dev_spec && end.hw.device_id == s.hw.device_id
            }
        }),
{
    reveal(Run::bus_info);
}

/// Whether reply `i` is a value that has the software flag as given.
pub open spec fn flag_was(end: Run, i: int, set: bool) -> bool {
    end.replies[i] matches Reply::Value(v) && (v & 0x20 != 0) == set
}

/// Whether reply `i` is a value that has the software flag otherwise.
pub open spec fn flag_was_not(end: Run, i: int, set: bool) -> bool {
    end.replies[i] matches Reply::Value(v) && (v & 0x20 != 0) != set
}

/// What is waited for is what the last look found and no look before did; if
/// it never comes, all looks that are allowed were made.
pub proof fn law_flag_is_polled(run: Run, wanted: bool, tries: int, last: u32)
    requires
        tries >= 0,
        !run.poll_flag(wanted, tries, last).0.stalled,
    ensures
        ({
            let (s, v, found) = run.poll_flag(wanted, tries, last);
            &&& s.replies == run.replies
            &&& run.used <= s.used <= run.used + tries
            &&& found ==> run.used < s.used && (v & 0x20 != 0) == wanted
            &&& !found ==> s.used == run.used + tries
            &&& found ==> flag_was(s, s.used - 1, wanted)
            &&& forall|i: int|
                run.used <= i < s.used && !(found && i == s.used - 1) ==> flag_was_not(s, i, wanted)
        }),
    decreases tries,
{
    reveal(Run::act);
    reveal(Run::ask);
    reveal(Run::continues);
    if tries > 0 {
        let (s, v) = run.read_register(0xF00);
        run.law_poll_flag_resumes(wanted, tries, last);
        if (v & 0x20 != 0) != wanted {
            let t = s.msec_delay(1);
            law_flag_is_polled(t, wanted, tries - 1, v);
            t.law_poll_flag_resumes(wanted, tries - 1, v);
        }
    }
}

/// How acquiring the software flag ends: in success exactly if it was found
/// clear within 100 looks, and after it was set found set within 1000; those
/// are all the looks that are made.
pub proof fn law_flag_is_acquired(run: Run)
    requires
        !run.acquire_swflag().0.stalled,
    ensures
        ({
            let (end, r) = run.acquire_swflag();
            let most = run.used + 100;
            &&& r == Err::<(), Error>(Error::SwLocked) ==> end.used == most
            &&& r == Err::<(), Error>(Error::SwLocked) <==> forall|i: int|
                run.used <= i < most ==> #[trigger] flag_was(end, i, true)
            &&& !(r == Err::<(), Error>(Error::SwLocked)) ==> exists|k: int|
                {
                    &&& run.used <= k < most && #[trigger] flag_was(end, k, false)
                    &&& forall|i: int| run.used <= i < k ==> #[trigger] flag_was(end, i, true)
                    &&& r is Ok ==> k + 1 < end.used <= k + 1001 && flag_was(end, end.used - 1, true)
                    &&& r is Err ==> {
                        &&& r == Err::<(), Error>(Error::SemaphoreBusy) && end.used == k + 1001
                        &&& forall|i: int|
                            k < i < end.used ==> #[trigger] flag_was(end, i, false)
                    }
                }
        }),
{
    reveal(Run::acquire_swflag);
    reveal(Run::act);
    let s0 = run.act(Action::AssertCtxLockHeld);
    let (s1, v, free) = s0.poll_flag(false, 100, 0);
    let (end, r) = run.acquire_swflag();
    if free {
        let set = v | 0x20;
        let s2 = s1.write_register(0xF00, set);
        let (s3, w, acquired) = s2.poll_flag(true, 1000, set);
        s2.law_poll_flag_resumes(true, 1000, set);
        assert(!s2.stalled && !s1.stalled) by {
            reveal(Run::continues);
        }
        law_flag_is_polled(s0, false, 100, 0);
        law_flag_is_polled(s2, true, 1000, set);
        let k = s1.used - 1;
        assert(flag_was(s1, k, false));
        assert(end.replies == s1.replies && end.used == s3.used);
        assert(flag_was(end, k, false));
        assert forall|i: int| run.used <= i < k implies #[trigger] flag_was(end, i, true) by {
            assert(flag_was_not(s1, i, false));
        }
        assert forall|i: int| k < i < end.used && !acquired implies #[trigger] flag_was(
            end,
            i,
            false,
        ) by {
            assert(flag_was_not(s3, i, true));
        }
        if acquired {
            assert(flag_was(s3, s3.used - 1, true));
            assert(flag_was(end, end.used - 1, true));
        }
        assert(!flag_was(end, k, true));
    } else {
        law_flag_is_polled(s0, false, 100, 0);
        assert forall|i: int| run.used <= i < run.used + 100 implies #[trigger] flag_was(
            end,
            i,
            true,
        ) by {
            assert(flag_was_not(s1, i, false));
        }
    }
}

/// Releasing the software flag clears it if it is set, and leaves the rest of
/// the register; nothing is written if it is clear.
pub proof fn law_flag_is_released(run: Run)
    ensures
        ({
            let (s, v) = run.read_register(0xF00);
            let lock = Action::AssertCtxLockHeld;
            &&& v & 0x20 != 0 ==> run.release_swflag() == s.act(
                Action::WriteRegister(0xF00, v & !0x20),
            ).act(lock)
            &&& v & 0x20 == 0 ==> run.release_swflag() == s.act(lock)
        }),
{
    reveal(Run::release_swflag);
}

/// The MAC is looked at until it has finished its basic configuration, at most
/// 1501 times.
pub proof fn law_init_is_awaited(run: Run, tries: int)
    requires
        tries >= 1,
        !run.poll_init_done(tries).stalled,
    ensures
        ({
            let end = run.poll_init_done(tries);
            &&& run.used < end.used <= run.used + tries
            &&& forall|i: int|
                run.used <= i < end.used - 1 ==> ((#[trigger] end.replies[i]) matches Reply::Value(v)
                    && v & 0x200 == 0)
            &&& end.used < run.used + tries ==> (end.replies[end.used - 1] matches Reply::Value(v)
                && v & 0x200 != 0)
        }),
        run.lan_init_done() == run.poll_init_done(1501).clear_register_bit(8, 0x200),
    decreases tries,
{
    reveal(Run::act);
    reveal(Run::ask);
    reveal(Run::lan_init_done);
    run.law_poll_init_done_resumes(tries);
    reveal(Run::continues);
    let (s, status) = run.read_register(8);
    let t = s.usec_delay(100);
    if status & 0x200 == 0 && tries > 1 {
        law_init_is_awaited(t, tries - 1);
        t.law_poll_init_done_resumes(tries - 1);
    }
}

/// One entry of the extended configuration: a pair of words, data first. An
/// address of 0x1F selects the page that the data names; any other is that of
/// a register on the selected page, to which the data is written. An entry
/// that fails ends it.
pub proof fn law_config_entry(
    run: Run,
    word: int,
    i: int,
    count: int,
    page: u16,
    data: u16,
    addr: u16,
)
    requires
        i < count,
    ensures
        ({
            let all = run.apply_config_entries(word, i, count, page, data, addr);
            let (s, first, d) = run.nvm_read_word((word + 2 * i) as u16, data);
            let (t, second, a) = s.nvm_read_word((word + 2 * i + 1) as u16, addr);
            let reg = (a & 0x1F) | page;
            let (u, written) = t.phy_write_reg_locked(reg as u32, d);
            &&& first is Err ==> all == (s, first)
            &&& first is Ok && second is Err ==> all == (t, second)
            &&& first is Ok && second is Ok && a == 0x1F ==> all == t.apply_config_entries(
                word,
                i + 1,
                count,
                d,
                d,
                a,
            )
            &&& first is Ok && second is Ok && a != 0x1F && written is Err ==> all == (u, written)
            &&& first is Ok && second is Ok && a != 0x1F && written is Ok ==> all
                == u.apply_config_entries(word, i + 1, count, page, d, reg)
        }),
{
}

/// The end of a power cycle of the PHY is looked for after 5 ms each time, until
/// it is there or `tries` looks were made.
pub proof fn law_power_cycle_is_awaited(run: Run, tries: int)
    requires
        tries >= 1,
        !run.poll_lanphypc(tries).stalled,
    ensures
        ({
            let end = run.poll_lanphypc(tries);
            &&& run.used < end.used <= run.used + tries
            &&& end.trace.len() == run.trace.len() + 2 * (end.used - run.used)
            &&& end.trace[end.trace.len() - 2] == Action::MsecDelay(5)
            &&& end.trace.last() == Action::ReadRegister(0x18)
            &&& forall|i: int|
                run.used <= i < end.used - 1 ==> ((#[trigger] end.replies[i]) matches Reply::Value(v)
                    && v & 4 == 0)
            &&& end.used < run.used + tries ==> (end.replies[end.used - 1] matches Reply::Value(v)
                && v & 4 != 0)
        }),
    decreases tries,
{
    reveal(Run::act);
    reveal(Run::ask);
    run.law_poll_lanphypc_resumes(tries);
    reveal(Run::continues);
    let (s, ctrl_ext) = run.msec_delay(5).read_register(0x18);
    if ctrl_ext & 4 == 0 && tries > 1 {
        law_power_cycle_is_awaited(s, tries - 1);
        s.law_poll_lanphypc_resumes(tries - 1);
    }
}

/// The pin of the PHY is held low for 1 ms. From Lynx Point on the end of the
/// power cycle is then looked for at most 21 times, and 30 ms pass; before,
/// 50 ms pass.
pub proof fn law_power_cycle(run: Run)
    ensures
        ({
            let (s, ctrl) = run.modify_register(0x3C, 0x0C00_0000, 0x0800_0000).read_register(0);
            let low = (ctrl | 0x0001_0000) & !0x0002_0000;
            let t = s.write_register(0, low).write_flush().msec_delay(1);
            let u = t.write_register(0, low & !0x0001_0000).write_flush();
            let end = run.toggle_lanphypc();
            &&& lynx_point_on(u.hw.mac.mac_type) ==> end == u.poll_lanphypc(21).msec_delay(30)
            &&& !lynx_point_on(u.hw.mac.mac_type) ==> end == u.msec_delay(50)
        }),
{
    reveal(Run::toggle_lanphypc);
}

} // verus!
