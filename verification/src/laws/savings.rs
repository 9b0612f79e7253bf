//! Saving power while the link is up: energy efficient Ethernet, the K1 state,
//! and the latency that the platform may take.

use vstd::prelude::*;
use crate::bits::{lemma_bits_16, lemma_setup_bits};
use crate::error::Error;
use crate::events::{group_events, Port};
use crate::hw::{MacType, PhyType};
use crate::io::{Action, Call, Feature, Reply, Run};
use crate::laws::link::lynx_point_on;
use crate::ltr::{encode_latency, latency_ns, ltr_choice, tolerated_ns};
use crate::resume::group_resumes;

verus! {

/// In which speeds energy efficient Ethernet is enabled: at 1 Gb/s if both
/// ends can do it, at 100 Mb/s if both ends can do it and the partner
/// announces full duplex there. A partner that does not is recorded as unable.
/// The other bits of the control register are kept.
pub proof fn law_eee_speeds(run: Run, lpi_ctrl: u16)
    requires
        lpi_ctrl & 0x6000 == 0,
        run.negotiate_eee(lpi_ctrl).1 is Ok,
    ensures
        ({
            let (end, _, ctrl, _) = run.negotiate_eee(lpi_ctrl);
            let (s, _, partner) = run.read_emi(0x8002, run.hw.dev_spec.eee_lp_ability);
            let (t, _, adv) = s.with_lp_ability(partner).read_emi(0x8001, 0);
            let ability = t.hw.dev_spec.eee_lp_ability;
            let (u, a) = t.call(Call::PhyReadRegLocked(5, 0));
            let full = (a.value as u16) & 0x0100 != 0;
            &&& ctrl & !0x6000 == lpi_ctrl
            &&& ctrl & 0x4000 != 0 <==> adv & ability & 0x0004 != 0
            &&& ctrl & 0x2000 != 0 <==> adv & ability & 0x0002 != 0 && full
            &&& adv & ability & 0x0002 != 0 && !full ==> end.hw.dev_spec.eee_lp_ability
                == u.hw.dev_spec.eee_lp_ability & !0x0002
        }),
{
    reveal(Run::negotiate_eee);
    reveal(Run::with_lp_ability);
    lemma_bits_16(lpi_ctrl, 0);
}

/// Energy efficient Ethernet is set up on an i217 under the semaphore: the
/// control register is written back with no speed enabled if it is disabled,
/// else with those that were negotiated; the status is read before, which
/// clears it; and the PHY is released.
pub proof fn law_eee_is_set(run: Run)
    requires
        run.hw.phy.phy_type == PhyType::Type_i217,
        !run.set_eee().0.stalled,
        run.set_eee().1 is Ok,
    ensures
        ({
            let end = run.set_eee().0;
            let s = run.call(Call::PhyAcquire).0;
            let (t, a) = s.call(Call::PhyReadRegLocked(0x6094, 0));
            let off = (a.value as u16) & !0x6000;
            let w = if t.hw.dev_spec.eee_disable {
                off
            } else {
                t.negotiate_eee(off).2
            };
            ||| end.calls_at(end.len() - 1, Call::Incomplete(Feature::SetEee82579))
            ||| {
                &&& end.calls_at(end.len() - 1, Call::PhyRelease)
                &&& end.called(run.len(), Call::PhyWriteRegLocked(0x10, 0x9401))
                &&& end.called(run.len(), Call::PhyWriteRegLocked(0x6094, w))
            }
        }),
{
    broadcast use {
        group_resumes,
        group_events,
        Run::law_access_emi_resumes,
        Run::law_read_emi_resumes,
        Run::law_negotiate_eee_resumes,
        Run::law_finish_eee_resumes,
    };

    reveal(Run::set_eee);
    reveal(Run::finish_eee);
    reveal(Run::access_emi);
    run.lemma_start();
}

/// Other PHYs but the 82579 are left alone.
pub proof fn law_eee_elsewhere(run: Run)
    requires
        run.hw.phy.phy_type != PhyType::Type_i217,
        run.hw.phy.phy_type != PhyType::Type_82579,
    ensures
        run.set_eee() == (run, Ok::<(), Error>(())),
{
    reveal(Run::set_eee);
}

/// The K1 workaround. At 1 Gb/s the PLL clock is requested, with K1 off in the
/// Kumeran interface meanwhile and as it was afterwards. Otherwise the request
/// is withdrawn; and on early PHYs with a link at 10 Mb/s, or at 100 Mb/s in
/// half duplex, the transmit timeout is 50 or 5 units of 10 us and the K1 entry
/// condition enabled or disabled.
pub proof fn law_k1_is_worked_around(run: Run, link: bool)
    requires
        !run.k1_workaround(link).0.stalled,
        run.k1_workaround(link).1 is Ok,
    ensures
        ({
            let end = run.k1_workaround(link).0;
            let (s, v) = run.read_register(0x10);
            let status = s.read_register(8).1;
            let from = run.len();
            let fast = link && status & 0x80 != 0;
            let hundred = status & 0x40 != 0;
            let plain = run.hw.phy.revision > 5 || !link || (hundred && status & 0x1 != 0);
            &&& fast ==> {
                &&& end.did(from, Action::WriteRegister(0x10, v | 0x100))
                &&& end.rewrote_by(from, Port::KmrnLocked, 7, 0x0002, 0)
                &&& k1_restored(end, from)
                &&& end.calls_at(end.len() - 1, Call::PhyRelease)
            }
            &&& !fast && plain ==> end.did(from, Action::WriteRegister(0x10, v & !0x100))
            &&& !fast && !plain && hundred ==> {
                &&& end.rewrote_by(from, Port::Plain, 0x6052, 0x3F00, 0x0500)
                &&& end.did(from, Action::WriteRegister(0x10, (v & !0x100) & !0x200))
            }
            &&& !fast && !plain && !hundred ==> {
                &&& end.rewrote_by(from, Port::Plain, 0x6052, 0x3F00, 0x3200)
                &&& end.did(from, Action::WriteRegister(0x10, (v & !0x100) | 0x200))
            }
        }),
{
    broadcast use {
        group_resumes,
        group_events,
        Run::law_k1_gigabit_resumes,
        Run::law_k1_slow_resumes,
    };

    reveal(Run::k1_workaround);
    reveal(Run::k1_gigabit);
    reveal(Run::k1_slow);
    run.lemma_start();
    let end = run.k1_workaround(link).0;
    let (s, v) = run.read_register(0x10);
    let (t, status) = s.read_register(8);
    if link && status & 0x80 != 0 {
        let u = t.phy_acquire().0;
        let read = Call::ReadKmrnRegLocked(7, 0);
        let (w, a) = u.call(read);
        let reg = a.value as u16;
        lemma_bits_16(reg, 0x0002);
        u.lemma_rewritten(Port::KmrnLocked, 7, 0, 0x0002, 0);
        let x = w.call(Call::WriteKmrnRegLocked(7, reg & !0x0002)).0;
        let y = x.usec_delay(10).write_register(0x10, v | 0x100);
        let back = Call::WriteKmrnRegLocked(7, reg);
        let z = y.call(back).0;
        assert(end == z.phy_release().0);
        u.lemma_was_called(read);
        y.lemma_was_called(back);
        z.lemma_was_called(Call::PhyRelease);
        assert(end.continues(w)) by {
            w.lemma_start();
        }
        end.lemma_kept(w);
        end.lemma_kept(z);
        end.lemma_reply_kept(w, u.len());
        u.lemma_kept(run);
        assert(end.trace[u.len()] == w.trace[u.len()]);
        assert(end.trace[end.len() - 2] == z.trace[end.len() - 2]);
        assert(y.continues(w)) by {
            w.lemma_start();
        }
        y.lemma_kept(w);
        assert(end.calls_at(u.len(), read));
        assert(k1_restored(end, run.len())) by {
            reveal(k1_restored);
        }
    } else if !(run.hw.phy.revision > 5 || !link || (status & 0x40 != 0 && status & 0x1 != 0)) {
        if status & 0x40 != 0 {
            t.lemma_rewritten(Port::Plain, 0x6052, 0, 0x3F00, 0x0500);
        } else {
            t.lemma_rewritten(Port::Plain, 0x6052, 0, 0x3F00, 0x3200);
        }
    }
}

/// Whether the K1 setting of the Kumeran interface was written back as it was
/// read, just before the PHY was released.
#[verifier::opaque]
pub open spec fn k1_restored(end: Run, from: int) -> bool {
    exists|i: int|
        {
            &&& from <= i < end.len() - 2
            &&& #[trigger] end.calls_at(i, Call::ReadKmrnRegLocked(7, 0))
            &&& end.reply_to(i) matches Reply::Returned(r)
            &&& end.calls_at(end.len() - 2, Call::WriteKmrnRegLocked(7, r.value as u16))
        }
}

/// Whether K1 may be switched off, from Lynx Point on: never if the device
/// state forbids it; else on Sunrise Point as bit 31 of the PCIe configuration
/// has it, and elsewhere as it was. The other bits of the register are kept.
/// Earlier families are left alone.
pub proof fn law_k1_off_is_settled(run: Run, mac_type: MacType, device_id: u16)
    requires
        run.device_is(mac_type, device_id),
        !run.settle_k1_off().stalled,
    ensures
        ({
            let end = run.settle_k1_off();
            let (s, v) = run.read_register(0x10);
            let cfg = s.read_register(0xF18).1;
            let forbidden = run.hw.dev_spec.disable_k1_off;
            let allowed = if mac_type == MacType::Mac_pch_spt {
                cfg & 0x8000_0000 != 0
            } else {
                v & 0x8000_0000 != 0
            };
            &&& !lynx_point_on(mac_type) ==> end == run
            &&& lynx_point_on(mac_type) ==> exists|w: u32|
                {
                    &&& #[trigger] end.did(run.len(), Action::WriteRegister(0x10, w))
                    &&& w & !0x8000_0000 == v & !0x8000_0000
                    &&& w & 0x8000_0000 != 0 <==> allowed && !forbidden
                }
        }),
{
    broadcast use {group_resumes, group_events};

    reveal(Run::settle_k1_off);
    run.lemma_start();
    run.lemma_device_known(mac_type, device_id);
    if lynx_point_on(mac_type) {
        let end = run.settle_k1_off();
        let (s, v) = run.read_register(0x10);
        let (t, cfg) = s.read_register(0xF18);
        let set = v | 0x8000_0000;
        let clear = v & !0x8000_0000;
        lemma_setup_bits(v);
        let w = if run.hw.dev_spec.disable_k1_off {
            if mac_type == MacType::Mac_pch_spt && cfg & 0x8000_0000 != 0 {
                set & !0x8000_0000
            } else if mac_type == MacType::Mac_pch_spt {
                clear & !0x8000_0000
            } else {
                clear
            }
        } else if mac_type == MacType::Mac_pch_spt {
            if cfg & 0x8000_0000 != 0 {
                set
            } else {
                clear
            }
        } else {
            v
        };
        assert(end.did(run.len(), Action::WriteRegister(0x10, w)));
    }
}

/// The latency that the device tolerates is the time in which a link of
/// `speed` Mb/s brings what the receive buffer has left beside two frames,
/// rounded down, where a frame counts 8000 times.
pub proof fn law_tolerated_latency(rxa: int, frame: int, speed: int)
    requires
        0 <= rxa,
        0 <= frame,
        0 < speed,
    ensures
        rxa * 1024 < 16000 * frame ==> tolerated_ns(rxa, frame, speed) == 0,
        rxa * 1024 >= 16000 * frame ==> {
            let ns = tolerated_ns(rxa, frame, speed);
            ns * speed <= rxa * 1024 - 16000 * frame < (ns + 1) * speed
        },
{
    let bits = rxa * 1024 - 16000 * frame;
    if bits >= 0 {
        let ns = tolerated_ns(rxa, frame, speed);
        assert(ns == bits / speed);
        assert(ns * speed <= bits < (ns + 1) * speed) by (nonlinear_arith)
            requires
                ns == bits / speed,
                bits >= 0,
                speed > 0,
        ;
    }
}

/// What is reported is the encoding of what the device tolerates or that of
/// what the platform supports, whichever is the smaller number; and the
/// high-water mark is what the buffer has left in the time that the report
/// stands for, or 0 where no time is tolerated.
pub proof fn law_latency_report(rxa: int, frame: int, speed: int, platform_max: int)
    requires
        0 <= rxa <= 0xFFFF,
        0 <= frame,
        0 < speed,
        0 <= platform_max <= 0xFFFF,
    ensures
        ({
            let (enc, mark) = ltr_choice(rxa, frame, speed, platform_max);
            let own = tolerated_ns(rxa, frame, speed);
            let limited = platform_max < encode_latency(own);
            let ns = if limited {
                latency_ns(platform_max)
            } else {
                own
            };
            let level = rxa - mark;
            &&& enc == if limited {
                platform_max
            } else {
                encode_latency(own)
            }
            &&& ns == 0 ==> mark == 0
            &&& ns > 0 ==> 8_000_000 * level <= ns * speed < 8_000_000 * (level + 1)
        }),
{
    let own = tolerated_ns(rxa, frame, speed);
    let limited = platform_max < encode_latency(own);
    let ns = if limited {
        latency_ns(platform_max)
    } else {
        own
    };
    if ns > 0 {
        let x = ns * speed;
        assert(ns * (speed * 1000) == x * 1000) by (nonlinear_arith)
            requires
                x == ns * speed,
        ;
        let level = (x * 1000) / 8 / 1_000_000_000;
        assert(8_000_000 * level <= x < 8_000_000 * (level + 1));
    }
}

/// When the latency cannot be reported: on a link, without a frame size, with
/// nothing done; if the link information is missing, with the error of that;
/// without a speed; and if the high-water mark is more than 31 or negative,
/// which is then named. The platform's limit is the greater of the two words
/// at 0xA8 and 0xAA of the configuration space, and the buffer size the lower
/// half of the packet buffer register.
pub proof fn law_latency_errors(run: Run, link: bool)
    ensures
        ({
            let (end, r) = run.platform_pm(link);
            let (s, info, speed, _) = run.op_link_up_info(0, 0);
            let (t, pba) = s.read_register(0x1000);
            let (u, snoop) = t.pci_read_config(0xA8, 2);
            let (v, nosnoop) = u.pci_read_config(0xAA, 2);
            let (a, b) = (snoop as u16, nosnoop as u16);
            let (_, mark) = ltr_choice(
                (pba & 0xFFFF) as int,
                s.hw.mac.max_frame_size as int,
                speed as int,
                if a >= b {
                    a as int
                } else {
                    b as int
                },
            );
            let frame = run.hw.mac.max_frame_size;
            &&& !link ==> r is Ok
            &&& link && frame == 0 ==> (end, r) == (
                run,
                Err::<(), Error>(Error::MaxFrameSizeNotSet),
            )
            &&& link && frame != 0 && info is Err ==> (end, r) == (s, info)
            &&& link && frame != 0 && info is Ok && speed == 0 ==> (end, r) == (
                s,
                Err::<(), Error>(Error::SpeedNotSet),
            )
            &&& link && frame != 0 && info is Ok && speed != 0 ==> {
                &&& r is Ok <==> 0 <= mark <= 31
                &&& r is Err ==> (end, r) == (
                    v,
                    Err::<(), Error>(Error::InvalidHighWaterMark(mark as i32)),
                )
            }
        }),
{
    reveal(Run::platform_pm);
}

} // verus!
