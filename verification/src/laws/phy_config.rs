//! Configuring the PHY after a reset: what has been written to it once that
//! succeeds.

use vstd::prelude::*;
use crate::bits::{lemma_bits_16, lemma_bits_32};
use crate::error::Error;
use crate::events::{group_events, Port};
use crate::hw::{MacType, PhyType};
use crate::io::{Action, Call, Feature, Reply, Run};
use crate::laws::link::lynx_point_on;
use crate::phy_config::{oem_bits, smbus_address};
use crate::resume::group_resumes;

verus! {

/// Whether a family is PCH or later.
pub open spec fn pch_on(mac_type: MacType) -> bool {
    mac_type == MacType::Mac_pchlan || mac_type == MacType::Mac_pch2lan || lynx_point_on(mac_type)
}

/// Whether a word of the NVM was read and gave `v`, at place `from` or later.
#[verifier::opaque]
pub open spec fn word_read(end: Run, from: int, offset: u16, v: u16) -> bool {
    exists|i: int, before: u16|
        {
            &&& from <= i < end.len()
            &&& #[trigger] end.calls_at(i, Call::NvmReadWord(offset, before))
            &&& end.reply_to(i) matches Reply::Returned(r)
            &&& r.value as u16 == v
        }
}

proof fn lemma_word_read(run: Run, start: Run, later: Run, offset: u16, before: u16)
    requires
        run.continues(start),
        later.continues(run.call(Call::NvmReadWord(offset, before)).0),
        !later.stalled,
    ensures
        word_read(
            later,
            start.len(),
            offset,
            run.call(Call::NvmReadWord(offset, before)).1.value as u16,
        ),
{
    reveal(word_read);
    let call = Call::NvmReadWord(offset, before);
    let s = run.call(call).0;
    later.lemma_kept(s);
    run.lemma_kept(start);
    run.lemma_was_called(call);
    later.lemma_reply_kept(s, run.len());
    assert(later.trace[run.len()] == s.trace[run.len()]);
    assert(later.calls_at(run.len(), call));
}

/// The page that the entries before entry `k` of the extended configuration
/// select; an entry is a value and a register address, and address 0x1F stands
/// for the page.
pub open spec fn page_before(entries: Seq<(u16, u16)>, k: int, page: u16) -> u16
    decreases k,
{
    if k <= 0 {
        page
    } else if entries[k - 1].1 == 0x1F {
        entries[k - 1].0
    } else {
        page_before(entries, k - 1, page)
    }
}

/// Whether `entries` were read from NVM word `word` on, and each that does not
/// select a page was written to the PHY register that it names, on the page
/// that was selected last.
pub open spec fn entries_written(
    end: Run,
    from: int,
    word: int,
    entries: Seq<(u16, u16)>,
    page: u16,
) -> bool {
    forall|k: int|
        #![trigger entries[k]]
        0 <= k < entries.len() ==> {
            &&& word_read(end, from, (word + 2 * k) as u16, entries[k].0)
            &&& word_read(end, from, (word + 2 * k + 1) as u16, entries[k].1)
            &&& entries[k].1 != 0x1F ==> end.called(
                from,
                Call::PhyWriteRegLocked(
                    ((entries[k].1 & 0x1F) | page_before(entries, k, page)) as u32,
                    entries[k].0,
                ),
            )
        }
}

/// Whether there are `count` such entries.
pub open spec fn region_written(end: Run, from: int, word: int, count: int, page: u16) -> bool {
    exists|entries: Seq<(u16, u16)>|
        entries.len() == count && #[trigger] entries_written(end, from, word, entries, page)
}

proof fn lemma_page_shift(entries: Seq<(u16, u16)>, first: (u16, u16), k: int, page: u16)
    requires
        0 <= k <= entries.len(),
    ensures
        page_before(seq![first] + entries, k + 1, page) == page_before(
            entries,
            k,
            if first.1 == 0x1F {
                first.0
            } else {
                page
            },
        ),
    decreases k,
{
    let all = seq![first] + entries;
    if k > 0 {
        lemma_page_shift(entries, first, k - 1, page);
        assert(all[k] == entries[k - 1]);
    } else {
        assert(all[0] == first);
        assert(page_before(all, 0, page) == page);
    }
}

proof fn lemma_apply_config_entries(
    run: Run,
    start: Run,
    later: Run,
    word: int,
    i: int,
    count: int,
    page: u16,
    data: u16,
    addr: u16,
)
    requires
        0 <= i <= count,
        run.continues(start),
        later.continues(run.apply_config_entries(word, i, count, page, data, addr).0),
        !later.stalled,
        run.apply_config_entries(word, i, count, page, data, addr).1 is Ok,
    ensures
        region_written(later, start.len(), word + 2 * i, count - i, page),
    decreases count - i,
{
    broadcast use {group_resumes, group_events, Run::law_apply_config_entries_resumes};

    run.lemma_start();
    if i >= count {
        let none = Seq::<(u16, u16)>::empty();
        assert(entries_written(later, start.len(), word + 2 * i, none, page));
    } else {
        let end = run.apply_config_entries(word, i, count, page, data, addr).0;
        let (s, a) = run.call(Call::NvmReadWord((word + i * 2) as u16, data));
        let d = a.value as u16;
        let (t, b) = s.call(Call::NvmReadWord((word + i * 2 + 1) as u16, addr));
        let at = b.value as u16;
        let reg = (at & 0x1F) | page;
        let (u, next) = if at == 0x1F {
            (t, d)
        } else {
            (t.phy_write_reg_locked(reg as u32, d).0, page)
        };
        let rest = u.apply_config_entries(
            word,
            i + 1,
            count,
            next,
            d,
            if at == 0x1F {
                at
            } else {
                reg
            },
        ).0;
        assert(end == rest);
        assert(u.continues(start) && s.continues(start)) by {
            start.lemma_start();
        }
        assert(later.continues(s) && later.continues(t) && later.continues(u)) by {
            s.lemma_start();
            t.lemma_start();
            u.lemma_start();
        }
        lemma_word_read(run, start, later, (word + i * 2) as u16, data);
        lemma_word_read(s, start, later, (word + i * 2 + 1) as u16, addr);
        lemma_apply_config_entries(
            u,
            start,
            later,
            word,
            i + 1,
            count,
            next,
            d,
            if at == 0x1F {
                at
            } else {
                reg
            },
        );
        let tail = choose|entries: Seq<(u16, u16)>|
            entries.len() == count - (i + 1) && #[trigger] entries_written(
                later,
                start.len(),
                word + 2 * (i + 1),
                entries,
                next,
            );
        let all = seq![(d, at)] + tail;
        let from = start.len();
        assert forall|k: int|
            #![trigger all[k]]
            0 <= k < all.len() implies {
            &&& word_read(later, from, (word + 2 * i + 2 * k) as u16, all[k].0)
            &&& word_read(later, from, (word + 2 * i + 2 * k + 1) as u16, all[k].1)
            &&& all[k].1 != 0x1F ==> later.called(
                from,
                Call::PhyWriteRegLocked(
                    ((all[k].1 & 0x1F) | page_before(all, k, page)) as u32,
                    all[k].0,
                ),
            )
        } by {
            if k == 0 {
                assert(all[0] == (d, at));
                assert(page_before(all, 0, page) == page);
                if at != 0x1F {
                    assert(t.reached_from(start)) by {
                        start.lemma_start();
                    }
                    assert(u.called(from, Call::PhyWriteRegLocked(reg as u32, d)));
                }
            } else {
                assert(all[k] == tail[k - 1]);
                lemma_page_shift(tail, (d, at), k - 1, page);
            }
        }
        assert(entries_written(later, from, word + 2 * i, all, page));
    }
}

/// Whether the PHY was configured from the extended configuration region of
/// the NVM: unless the word that says whether software has to do so, under
/// `bit`, says no, or hardware has done it before PCH2, or there is no region.
#[verifier::opaque]
pub open spec fn configured(end: Run, from: int, mac_type: MacType, bit: u32) -> bool {
    exists|fextnvm: u32|
        {
            &&& #[trigger] end.saw(from, 0x28, fextnvm)
            &&& fextnvm & bit == 0 || exists|extcnf: u32|
                {
                    &&& #[trigger] end.saw(from, 0xF00, extcnf)
                    &&& (!(mac_type == MacType::Mac_pch2lan || lynx_point_on(mac_type)) && extcnf
                        & 1 != 0) || exists|size: u32|
                        {
                            &&& #[trigger] end.saw(from, 0xF08, size)
                            &&& (size & 0x00FF_0000) >> 16 == 0 || region_written(
                                end,
                                from,
                                ((extcnf & 0x0FFF_0000) >> 16) * 2,
                                ((size & 0x00FF_0000) >> 16) as int,
                                0,
                            )
                        }
                }
        }
}

/// The bit that says whether software configures the PHY.
pub open spec fn config_bit(mac_type: MacType, phy_type: PhyType, device_id: u16) -> u32 {
    if mac_type == MacType::Mac_ich8lan {
        if phy_type != PhyType::Type_igp_3 {
            0
        } else if device_id == 0x104A || device_id == 0x104B {
            1
        } else {
            0x0800_0000
        }
    } else if pch_on(mac_type) && mac_type != MacType::Mac_newer {
        0x0800_0000
    } else {
        0
    }
}

proof fn lemma_apply_extended_config(
    run: Run,
    start: Run,
    later: Run,
    bit: u32,
    mac_type: MacType,
    device_id: u16,
)
    requires
        run.device_is(mac_type, device_id),
        run.continues(start),
        later.continues(run.apply_extended_config(bit).0),
        !later.stalled,
        run.apply_extended_config(bit).1 is Ok,
    ensures
        configured(later, start.len(), mac_type, bit),
{
    broadcast use {
        group_resumes,
        group_events,
        Run::law_configure_smbus_and_led_resumes,
        Run::law_apply_config_entries_resumes,
    };

    reveal(Run::apply_extended_config);
    reveal(configured);
    start.lemma_start();
    let from = start.len();
    assert(run.reached_from(start)) by {
        reveal(Run::reached_from);
    }
    let end = run.apply_extended_config(bit).0;
    let (s, fextnvm) = run.read_register(0x28);
    let (t, extcnf) = s.read_register(0xF00);
    let (u, size) = t.read_register(0xF08);
    let base = (extcnf & 0x0FFF_0000) >> 16;
    let count = (size & 0x00FF_0000) >> 16;
    assert(end.continues(s)) by {
        s.lemma_start();
    }
    assert(later.continues(s)) by {
        s.lemma_start();
    }
    assert(later.saw(from, 0x28, fextnvm));
    if fextnvm & bit != 0 {
        assert(later.continues(t)) by {
            t.lemma_start();
        }
        assert(later.saw(from, 0xF00, extcnf));
        if mac_type == MacType::Mac_pch2lan || lynx_point_on(mac_type) || extcnf & 1 == 0 {
            assert(later.continues(u)) by {
                u.lemma_start();
            }
            assert(later.saw(from, 0xF08, size));
            if count != 0 {
                let v = u.configure_smbus_and_led(extcnf).0;
                assert(v.continues(start));
                lemma_apply_config_entries(
                    v,
                    start,
                    later,
                    base * 2,
                    0,
                    count as int,
                    0,
                    0,
                    0,
                );
            }
        }
    }
}

proof fn lemma_sw_lcd_config(
    run: Run,
    start: Run,
    later: Run,
    mac_type: MacType,
    device_id: u16,
)
    requires
        run.device_is(mac_type, device_id),
        run.continues(start),
        later.continues(run.sw_lcd_config().0),
        !later.stalled,
        run.sw_lcd_config().1 is Ok,
        config_bit(mac_type, run.hw.phy.phy_type, device_id) != 0,
    ensures
        configured(
            later,
            start.len(),
            mac_type,
            config_bit(mac_type, run.hw.phy.phy_type, device_id),
        ),
{
    broadcast use {group_resumes, group_events, Run::law_apply_extended_config_resumes};

    reveal(Run::sw_lcd_config);
    run.lemma_start();
    let bit = config_bit(mac_type, run.hw.phy.phy_type, device_id);
    let s = run.phy_acquire().0;
    let t = s.apply_extended_config(bit).0;
    assert(s.continues(start)) by {
        start.lemma_start();
        assert(run.reached_from(start));
    }
    assert(later.continues(t)) by {
        t.lemma_start();
    }
    lemma_apply_extended_config(s, start, later, bit, mac_type, device_id);
}

/// Configuring the PHY from the NVM, where it succeeds, has applied the
/// extended configuration region if the NVM leaves that to software, under the
/// semaphore. Families and PHYs that software has no business with are left
/// alone.
pub proof fn law_phy_is_configured(run: Run, mac_type: MacType, device_id: u16)
    requires
        run.device_is(mac_type, device_id),
    ensures
        ({
            let (end, r) = run.sw_lcd_config();
            let bit = config_bit(mac_type, run.hw.phy.phy_type, device_id);
            &&& bit == 0 ==> (end, r) == (run, Ok::<(), Error>(()))
            &&& bit != 0 && r is Ok && !end.stalled ==> {
                &&& configured(end, run.len(), mac_type, bit)
                &&& end.calls_at(run.len(), Call::PhyAcquire)
                &&& end.calls_at(end.len() - 1, Call::PhyRelease)
            }
        }),
{
    broadcast use {group_resumes, group_events, Run::law_apply_extended_config_resumes};

    reveal(Run::sw_lcd_config);
    run.lemma_start();
    let (end, r) = run.sw_lcd_config();
    let bit = config_bit(mac_type, run.hw.phy.phy_type, device_id);
    if bit != 0 && r is Ok && !end.stalled {
        let s = run.phy_acquire().0;
        assert(end.continues(end)) by {
            end.lemma_start();
        }
        lemma_sw_lcd_config(run, run, end, mac_type, device_id);
        run.lemma_was_called(Call::PhyAcquire);
        assert(end.continues(s)) by {
            s.lemma_start();
        }
        end.lemma_kept(s);
        assert(end.trace[run.len()] == s.trace[run.len()]);
    }
}

/// The OEM bits are written back as the MAC says for the device state: gigabit
/// speed disabled and low power link up enabled by the bits of the register
/// that speak of that state. The rest of the register is kept, but that
/// negotiation is restarted unless the firmware blocks resets; on PCH that is
/// so for the working state alone.
pub proof fn law_oem_bits_are_written(run: Run, d0_state: bool, mac_type: MacType, device_id: u16)
    requires
        run.device_is(mac_type, device_id),
        !run.apply_oem_bits(d0_state).0.stalled,
        run.apply_oem_bits(d0_state).1 is Ok,
    ensures
        ({
            let end = run.apply_oem_bits(d0_state).0;
            let (s, phy_ctrl) = run.read_register(0xF10);
            let (t, a) = s.call(Call::PhyReadRegLocked(0x6019, 0));
            let reg = a.value as u16;
            let asked = d0_state || mac_type != MacType::Mac_pchlan;
            let free = t.call(Call::CheckResetBlock).1.value == 0;
            exists|w: u16|
                {
                    &&& #[trigger] end.calls_at(end.len() - 1, Call::PhyWriteRegLocked(0x6019, w))
                    &&& w & !0x0444 == reg & !0x0444
                    &&& w & 0x0040 != 0 <==> phy_ctrl & 0x40 != 0 || (!d0_state && phy_ctrl & 0x8
                        != 0)
                    &&& w & 0x0004 != 0 <==> phy_ctrl & 0x2 != 0 || (!d0_state && phy_ctrl & 0x4
                        != 0)
                    &&& w & 0x0400 != 0 <==> reg & 0x0400 != 0 || (asked && free)
                }
        }),
{
    broadcast use {group_resumes, group_events};

    reveal(Run::apply_oem_bits);
    run.lemma_start();
    let end = run.apply_oem_bits(d0_state).0;
    let (s, phy_ctrl) = run.read_register(0xF10);
    let (t, a) = s.call(Call::PhyReadRegLocked(0x6019, 0));
    let reg = a.value as u16;
    let asked = d0_state || mac_type != MacType::Mac_pchlan;
    let free = t.call(Call::CheckResetBlock).1.value == 0;
    let bits = oem_bits(reg, phy_ctrl, d0_state);
    let w = if asked && free {
        bits | 0x0400
    } else {
        bits
    };
    assert(end.calls_at(end.len() - 1, Call::PhyWriteRegLocked(0x6019, w)));
    crate::phy_config::law_oem_bits(reg, phy_ctrl);
    assert({
        &&& bits & !(0x40u16 | 0x4) == reg & !(0x40u16 | 0x4) ==> (bits | 0x400) & !0x0444 == reg
            & !0x0444 && bits & !0x0444 == reg & !0x0444 && (bits & 0x400 == reg & 0x400)
        &&& (bits | 0x400) & 0x40 == bits & 0x40
        &&& (bits | 0x400) & 0x4 == bits & 0x4
        &&& (bits | 0x400) & 0x400 != 0
    }) by (bit_vector);
}

/// The OEM bits are for software to write from PCH on, where the NVM says so,
/// and on PCH itself where hardware does not: success then means that they
/// have been written. Earlier families are left alone.
pub proof fn law_oem_bits_configured(run: Run, d0_state: bool, mac_type: MacType, device_id: u16)
    requires
        run.device_is(mac_type, device_id),
        !run.oem_bits_config(d0_state).0.stalled,
    ensures
        ({
            let (end, r) = run.oem_bits_config(d0_state);
            let s = run.call(Call::PhyAcquire).0;
            let (t, extcnf) = s.read_register(0xF00);
            let pch = mac_type == MacType::Mac_pchlan;
            let fextnvm = if pch {
                t.read_register(0x28).1
            } else {
                s.read_register(0x28).1
            };
            &&& !pch_on(mac_type) ==> (end, r) == (run, Ok::<(), Error>(()))
            &&& pch_on(mac_type) && r is Ok && fextnvm & 0x0800_0000 != 0 && !(pch && extcnf & 8
                != 0) ==> exists|u: Run| #[trigger]
                u.continues(run) && end.continues(u.apply_oem_bits(d0_state).0)
                    && u.apply_oem_bits(d0_state).1 is Ok
        }),
{
    broadcast use {
        group_resumes,
        group_events,
        Run::law_oem_bits_by_software_resumes,
        Run::law_apply_oem_bits_resumes,
    };

    reveal(Run::oem_bits_config);
    reveal(Run::oem_bits_by_software);
    run.lemma_start();
    let end = run.oem_bits_config(d0_state).0;
    lemma_bits_32(0);
    let (u, by_software) = run.call(Call::PhyAcquire).0.oem_bits_by_software();
    assert(u.continues(run));
    if pch_on(mac_type) && run.oem_bits_config(d0_state).1 is Ok && by_software {
        let v = u.apply_oem_bits(d0_state).0;
        assert(end == v.phy_release().0);
        assert(end.continues(v));
    }
}

/// The SMBus address of the straps is copied to the PHY, marked valid and with
/// error checking; on an i217 the bus frequency too, less one, if the straps
/// give one. The rest of the register is kept.
pub proof fn law_smbus_address_is_copied(run: Run)
    requires
        !run.copy_smbus_address().0.stalled,
        run.copy_smbus_address().1 is Ok,
    ensures
        ({
            let end = run.copy_smbus_address().0;
            let (s, strap) = run.read_register(0xC);
            let (t, a) = s.call(Call::ReadPhyRegHvLocked(0x601A, 0));
            let reg = a.value as u16;
            let freq = (strap >> 12) & 3;
            let with_freq = t.hw.phy.phy_type == PhyType::Type_i217 && freq != 0;
            exists|w: u16|
                {
                    &&& #[trigger] end.calls_at(end.len() - 1, Call::WritePhyRegHvLocked(0x601A, w))
                    &&& w & 0x7F == (strap >> 17) & 0x7F
                    &&& w & 0x0280 == 0x0280
                    &&& w & !0x13FF == reg & !0x13FF
                    &&& !with_freq ==> w & 0x1100 == reg & 0x1100
                    &&& with_freq ==> (w & 0x0100 != 0 <==> freq == 2) && (w & 0x1000 != 0 <==> freq
                        == 3)
                }
        }),
{
    broadcast use {group_resumes, group_events};

    reveal(Run::copy_smbus_address);
    run.lemma_start();
    let end = run.copy_smbus_address().0;
    let (s, strap) = run.read_register(0xC);
    let (t, a) = s.call(Call::ReadPhyRegHvLocked(0x601A, 0));
    let reg = a.value as u16;
    let i217 = t.hw.phy.phy_type == PhyType::Type_i217;
    let w = smbus_address(strap, reg, i217);
    assert(end.calls_at(end.len() - 1, Call::WritePhyRegHvLocked(0x601A, w)));
    let f = (((strap & 0x3000) >> 12) - 1) as u32;
    assert({
        let addr = (strap & 0x00FE_0000) >> 17;
        let valid = ((reg & !0x007F) | (addr as u16)) | (0x0200u16 | 0x0080u16);
        let v = ((valid & !0x1100) | (((f & 1) << 8u32) as u16)) | (((f & 2) << 11u32) as u16);
        &&& (strap & 0x3000) >> 12 == (strap >> 12) & 3
        &&& valid & 0x007F == (strap >> 17) & 0x7F
        &&& valid & 0x0280 == 0x0280
        &&& valid & !0x13FF == reg & !0x13FF
        &&& valid & 0x1100 == reg & 0x1100
        &&& (strap >> 12) & 3 <= 3
        &&& v & 0x007F == (strap >> 17) & 0x7F
        &&& v & 0x0280 == 0x0280
        &&& v & !0x13FF == reg & !0x13FF
        &&& (v & 0x0100 != 0) == (f & 1 != 0)
        &&& (v & 0x1000 != 0) == (f & 2 != 0)
        &&& f == 0 ==> f & 1 == 0 && f & 2 == 0
        &&& f == 1 ==> f & 1 != 0 && f & 2 == 0
        &&& f == 2 ==> f & 1 == 0 && f & 2 != 0
    }) by (bit_vector);
}

/// The SMBus address and the LED configuration are copied to the PHY from PCH2
/// on, and on PCH where hardware does not write the OEM bits; elsewhere
/// nothing is done.
pub proof fn law_smbus_and_led(run: Run, extcnf: u32, mac_type: MacType, device_id: u16)
    requires
        run.device_is(mac_type, device_id),
        !run.configure_smbus_and_led(extcnf).0.stalled,
    ensures
        ({
            let (end, r) = run.configure_smbus_and_led(extcnf);
            let copied = mac_type == MacType::Mac_pch2lan || lynx_point_on(mac_type) || (mac_type
                == MacType::Mac_pchlan && extcnf & 8 == 0);
            &&& !copied ==> (end, r) == (run, Ok::<(), Error>(()))
            &&& copied && r is Ok ==> {
                &&& run.copy_smbus_address().1 is Ok
                &&& end.continues(run.copy_smbus_address().0)
                &&& exists|ledctl: u32|
                    end.saw(run.len(), 0xE00, ledctl) && #[trigger] end.calls_at(
                        end.len() - 1,
                        Call::WritePhyRegHvLocked(0x601E, ledctl as u16),
                    )
            }
        }),
{
    broadcast use {group_resumes, group_events, Run::law_copy_smbus_address_resumes};

    reveal(Run::configure_smbus_and_led);
    run.lemma_start();
    let end = run.configure_smbus_and_led(extcnf).0;
    let s = run.copy_smbus_address().0;
    let ledctl = s.read_register(0xE00).1;
    let copied = mac_type == MacType::Mac_pch2lan || lynx_point_on(mac_type) || (mac_type
        == MacType::Mac_pchlan && extcnf & 8 == 0);
    run.lemma_device_known(mac_type, device_id);
    if copied && run.configure_smbus_and_led(extcnf).1 is Ok {
        let t = s.read_register(0xE00).0;
        assert(end == t.call(Call::WritePhyRegHvLocked(0x601E, ledctl as u16)).0);
        assert(end.continues(s)) by {
            s.lemma_start();
        }
        assert(t.saw(run.len(), 0xE00, ledctl));
        assert(end.calls_at(
            end.len() - 1,
            Call::WritePhyRegHvLocked(0x601E, ledctl as u16),
        ));
    }
}

/// What has been done to the PHY once it was reset, from PCH on: the host
/// wakeup bit is clear, the PHY is configured from the NVM, and the timer of
/// low power idle is at 200 us; and the OEM bits have been seen to.
pub open spec fn phy_is_ready(end: Run, from: int, mac_type: MacType) -> bool {
    &&& end.did(from, Action::MsecDelay(10))
    &&& end.rewrote_by(from, Port::Plain, 0x6031, 0x0010, 0)
    &&& mac_type != MacType::Mac_newer ==> configured(end, from, mac_type, 0x0800_0000)
    &&& end.wrote_emi(from, 0x4805, 0x1387)
    &&& exists|s: Run| #[trigger]
        s.trace.len() >= from && end.continues(s.oem_bits_config(true).0)
}

/// Whether the PHY was made ready, unless the firmware was found to block
/// resets of it.
#[verifier::opaque]
pub open spec fn phy_is_set_up(end: Run, from: int, mac_type: MacType) -> bool {
    exists|i: int|
        {
            &&& from <= i < end.len()
            &&& #[trigger] end.calls_at(i, Call::CheckResetBlock)
            &&& end.reply_to(i) matches Reply::Returned(r)
            &&& (r.result is Ok && r.value != 0) || phy_is_ready(end, from, mac_type)
        }
}

pub proof fn lemma_post_phy_reset(
    run: Run,
    start: Run,
    later: Run,
    mac_type: MacType,
    device_id: u16,
)
    requires
        run.device_is(mac_type, device_id),
        run.continues(start),
        later.continues(run.post_phy_reset().0),
        !later.stalled,
        run.post_phy_reset().1 is Ok,
        pch_on(mac_type),
    ensures
        phy_is_set_up(later, start.len(), mac_type),
{
    broadcast use {
        group_resumes,
        group_events,
        Run::law_reset_workarounds_resumes,
        Run::law_clear_host_wakeup_resumes,
        Run::law_sw_lcd_config_resumes,
        Run::law_oem_bits_config_resumes,
        Run::law_ungate_if_unmanaged_resumes,
        Run::law_set_lpi_timer_resumes,
        Run::law_write_emi_resumes,
    };

    reveal(Run::post_phy_reset);
    reveal(Run::clear_host_wakeup);
    reveal(Run::set_lpi_timer);
    let from = start.len();
    start.lemma_start();
    assert(run.reached_from(start)) by {
        reveal(Run::reached_from);
    }
    let end = run.post_phy_reset().0;
    let (s0, a) = run.call(Call::CheckResetBlock);
    assert(later.continues(s0)) by {
        s0.lemma_start();
    }
    run.lemma_was_called(Call::CheckResetBlock);
    later.lemma_kept(s0);
    run.lemma_kept(start);
    later.lemma_reply_kept(s0, run.len());
    assert(later.trace[run.len()] == s0.trace[run.len()]);
    assert(later.calls_at(run.len(), Call::CheckResetBlock));
    if !(a.result is Ok && a.value != 0) {
        let s1 = s0.msec_delay(10).reset_workarounds().0;
        let s2 = s1.clear_host_wakeup();
        let s3 = s2.sw_lcd_config().0;
        let s4 = s3.oem_bits_config(true).0;
        let s5 = s4.ungate_if_unmanaged();
        assert(end == s5.set_lpi_timer().0);
        assert(s1.reached_from(start) && s2.reached_from(start) && s3.reached_from(start));
        assert(later.continues(s2) && later.continues(s3) && later.continues(s4)) by {
            s2.lemma_start();
            s3.lemma_start();
            s4.lemma_start();
        }
        let reg = s1.phy_read_reg(0x6031, 0).2;
        lemma_bits_16(reg, 0x0010);
        s1.lemma_rewritten(Port::Plain, 0x6031, 0, 0x0010, 0);
        assert(s2.rewrote_by(from, Port::Plain, 0x6031, 0x0010, 0));
        if mac_type != MacType::Mac_newer {
            lemma_sw_lcd_config(s2, start, later, mac_type, device_id);
        }
        s3.lemma_kept(start);
        assert(later.continues(end));
        assert(end.wrote_emi(from, 0x4805, 0x1387));
        assert(s3.trace.len() >= from && later.continues(s3.oem_bits_config(true).0));
        assert(phy_is_ready(later, from, mac_type));
    }
    assert(phy_is_set_up(later, from, mac_type)) by {
        reveal(phy_is_set_up);
    }
}

/// What follows a reset of the PHY makes it ready, on every family from PCH
/// on, unless the firmware blocks resets of it.
pub proof fn law_phy_is_ready_after_reset(run: Run, mac_type: MacType, device_id: u16)
    requires
        run.device_is(mac_type, device_id),
        pch_on(mac_type),
        !run.post_phy_reset().0.stalled,
        run.post_phy_reset().1 is Ok,
    ensures
        phy_is_set_up(run.post_phy_reset().0, run.len(), mac_type),
{
    let end = run.post_phy_reset().0;
    run.lemma_start();
    end.lemma_start();
    assert(run.continues(run) && end.continues(end)) by {
        reveal(Run::reached_from);
    }
    lemma_post_phy_reset(run, run, end, mac_type, device_id);
}

/// A reset of the PHY by its own reset line is followed by making it ready.
pub proof fn law_phy_hw_reset(run: Run, mac_type: MacType, device_id: u16)
    requires
        run.device_is(mac_type, device_id),
        pch_on(mac_type),
        !run.phy_hw_reset().0.stalled,
        run.phy_hw_reset().1 is Ok,
    ensures
        run.phy_hw_reset().0.called(run.len(), Call::PhyHwResetGeneric),
        phy_is_set_up(run.phy_hw_reset().0, run.len(), mac_type),
{
    broadcast use {
        group_resumes,
        group_events,
        Run::law_gate_if_unmanaged_resumes,
        Run::law_post_phy_reset_resumes,
    };

    reveal(Run::phy_hw_reset);
    let end = run.phy_hw_reset().0;
    run.lemma_start();
    end.lemma_start();
    let s = run.gate_if_unmanaged().invoke(Call::PhyHwResetGeneric).0;
    assert(s.continues(run));
    lemma_post_phy_reset(s, run, end, mac_type, device_id);
}

/// On an 82579 without firmware, PHY configuration by hardware is gated before
/// a reset of the PHY and ungated after it, and on others it is left.
pub proof fn law_gating(run: Run, mac_type: MacType, device_id: u16)
    requires
        run.device_is(mac_type, device_id),
    ensures
        mac_type != MacType::Mac_pch2lan ==> run.gate_if_unmanaged() == run
            && run.ungate_if_unmanaged() == run,
        mac_type == MacType::Mac_pch2lan ==> {
            let fwsm = run.read_register(0x5B54).1;
            let (on, off) = (run.gate_if_unmanaged(), run.ungate_if_unmanaged());
            &&& fwsm & 0x8000 == 0 && !on.stalled ==> on.did(
                run.len(),
                Action::SetRegisterBit(0xF00, 0x80),
            )
            &&& fwsm & 0x8000 == 0 && !off.stalled ==> off.did(
                run.len(),
                Action::ClearRegisterBit(0xF00, 0x80),
            )
            &&& fwsm & 0x8000 != 0 ==> on == run.read_register(0x5B54).0 && off
                == run.read_register(0x5B54).0
        },
{
    broadcast use {group_resumes, group_events};

    reveal(Run::gate_if_unmanaged);
    reveal(Run::ungate_if_unmanaged);
    reveal(Run::gate_phy_config);
    run.lemma_start();
    run.lemma_device_known(mac_type, device_id);
}

/// The 82579 has its mean square error threshold raised to 0x34 and the link
/// taken down after 5 such errors, in slow mode and with the PHY acquired; that
/// the first cannot be written is no error, but the second is then left. Other
/// families are left alone.
pub proof fn law_82579_is_worked_around(run: Run)
    ensures
        ({
            let (end, r) = run.lv_phy_workarounds();
            let pch2 = run.hw.mac.mac_type == MacType::Mac_pch2lan;
            let (s, slow) = run.incomplete(Feature::SetMdioSlowModeHv);
            let (t, acquired) = s.phy_acquire();
            let (u, first) = t.write_emi(0x084F, 0x34);
            let (v, second) = u.write_emi(0x2411, 5);
            &&& !pch2 ==> end == run && r is Ok
            &&& pch2 && slow is Err ==> (end, r) == (s, slow)
            &&& pch2 && slow is Ok && acquired is Err ==> (end, r) == (t, acquired)
            &&& pch2 && slow is Ok && acquired is Ok && first is Err ==> (end, r) == u.release_and(
                Ok(()),
            )
            &&& pch2 && slow is Ok && acquired is Ok && first is Ok ==> (end, r) == v.release_and(
                second,
            )
        }),
{
    reveal(Run::lv_phy_workarounds);
}

} // verus!
