//! Reading the NVM, down to the flash: which bank is found to be valid, and
//! what words a read gives.

use vstd::prelude::*;
use crate::bits::lemma_bytes;
use crate::error::Error;
use crate::flash::Cycle;
use crate::hw::MacType;
use crate::io::{Call, Run};
use crate::laws::flash::{
    controller_ready, flash_serves, holds_bytes, lemma_goes_on, lemma_read_cycle,
};
use crate::nvm::{
    dword_at, high_word, law_detect_bank, law_halves_are_nvm_words, law_words_are_nvm_words,
    low_word, signature_byte, valid_signature,
};
use crate::resume::group_resumes;

verus! {

/// Whether the controller is ready and the flash holds `flash`, wherever a run
/// from `start` to `later` has looked.
pub open spec fn serves(start: Run, later: Run, flash: spec_fn(int) -> u8) -> bool {
    &&& !later.stalled
    &&& controller_ready(later, start.len())
    &&& flash_serves(later, start.len(), flash)
}

/// Whether a byte of the NVM, counted from its first bank, marks a bank as
/// valid: bits 15 and 14 of its word are 1 and 0.
pub open spec fn marks_bank(run: Run, flash: spec_fn(int) -> u8, byte: int) -> bool {
    flash(run.hw.nvm.flash_base_addr + byte) & 0xC0 == 0x80
}

/// The word at place `place` of the NVM, counted in words from its first bank.
pub open spec fn flash_word(base: int, flash: spec_fn(int) -> u8, place: int) -> u16 {
    (flash(base + 2 * place) + 256 * flash(base + 2 * place + 1)) as u16
}

proof fn lemma_byte(
    run: Run,
    start: Run,
    later: Run,
    flash: spec_fn(int) -> u8,
    offset: u32,
    data: u8,
)
    requires
        run.hw.wf(),
        !run.since(MacType::Mac_pch_spt),
        offset <= 0x00FF_FFFF,
        run.continues(start),
        later.continues(run.read_flash_byte(offset, data).0),
        serves(start, later, flash),
    ensures
        run.read_flash_byte(offset, data).1 is Ok,
        run.read_flash_byte(offset, data).2 == flash(run.hw.nvm.flash_base_addr + offset),
{
    reveal(Run::read_flash_byte);
    reveal(Run::read_flash_data);
    reveal(holds_bytes);
    lemma_bytes(offset);
    let addr = run.flash_address(offset);
    lemma_read_cycle(run, start, later, flash, Cycle::ReadByte, addr);
    lemma_bytes(run.flash_access(Cycle::ReadByte, addr, 0).1->0);
}

proof fn lemma_word(
    run: Run,
    start: Run,
    later: Run,
    flash: spec_fn(int) -> u8,
    place: u32,
    data: u16,
)
    requires
        run.hw.wf(),
        place < 0x8000_0000,
        run.continues(start),
        later.continues(run.read_flash_word(place, data).0),
        serves(start, later, flash),
        run.read_flash_word(place, data).1 is Ok,
    ensures
        run.read_flash_word(place, data).2 == flash_word(
            run.hw.nvm.flash_base_addr as int,
            flash,
            place as int,
        ),
{
    reveal(Run::read_flash_data);
    reveal(holds_bytes);
    lemma_bytes(place);
    let offset = place << 1;
    lemma_bytes(offset);
    let addr = run.flash_address(offset);
    lemma_read_cycle(run, start, later, flash, Cycle::ReadWord, addr);
    lemma_bytes(run.flash_access(Cycle::ReadWord, addr, 0).1->0);
}

proof fn lemma_dword(
    run: Run,
    start: Run,
    later: Run,
    flash: spec_fn(int) -> u8,
    place: u32,
    data: u32,
)
    requires
        run.hw.wf(),
        place < 0x8000_0000,
        run.continues(start),
        later.continues(run.read_flash_dword(place, data).0),
        serves(start, later, flash),
        run.read_flash_dword(place, data).1 is Ok,
    ensures
        ({
            let d = run.read_flash_dword(place, data).2;
            let base = run.hw.nvm.flash_base_addr as int;
            &&& low_word(d) == flash_word(base, flash, place as int)
            &&& high_word(d) == flash_word(base, flash, place + 1)
            &&& signature_byte(d) == flash(base + 2 * place + 1)
        }),
{
    reveal(Run::read_flash_data32);
    reveal(holds_bytes);
    lemma_bytes(place);
    let offset = place << 1;
    lemma_bytes(offset);
    let addr = run.flash_address(offset);
    lemma_read_cycle(run, start, later, flash, Cycle::ReadDword, addr);
    lemma_bytes(run.flash_access(Cycle::ReadDword, addr, 0).1->0);
}

proof fn lemma_dword_succeeds(run: Run, place: u32, data: u32)
    requires
        run.since(MacType::Mac_pch_spt),
        2 * place <= 0x00FF_FFFF,
    ensures
        run.read_flash_dword(place, data).1 is Ok,
{
    reveal(Run::read_flash_data32);
    lemma_bytes(place);
}

proof fn lemma_bank_by_dword(run: Run, start: Run, later: Run, flash: spec_fn(int) -> u8)
    requires
        run.hw.wf(),
        run.since(MacType::Mac_pch_spt),
        0x26 + 2 * run.hw.nvm.flash_bank_size <= 0x00FF_FFFF,
        run.continues(start),
        later.continues(run.detect_bank_by_dword().0),
        serves(start, later, flash),
    ensures
        is_bank(
            run,
            flash,
            run.detect_bank_by_dword().1,
            run.detect_bank_by_dword().2,
        ),
{
    broadcast use {group_resumes, Run::law_read_flash_data32_resumes, Run::law_read_flash_data32_keeps_hw};

    reveal(Run::detect_bank_by_dword);
    run.lemma_start();
    let end = run.detect_bank_by_dword().0;
    let (s, r, d) = run.read_flash_dword(0x13, 0);
    lemma_dword_succeeds(run, 0x13, 0);
    assert(later.continues(s)) by {
        s.lemma_start();
    }
    lemma_dword(run, start, later, flash, 0x13, 0);
    if !valid_signature(signature_byte(d)) {
        let at = (0x13 + run.hw.nvm.flash_bank_size) as u32;
        lemma_dword_succeeds(s, at, d);
        assert(s.continues(run));
        lemma_goes_on(start, run, s);
        assert(end == s.read_flash_dword(at, d).0);
        lemma_dword(s, start, later, flash, at, d);
    }
}

proof fn lemma_bank_by_byte(run: Run, start: Run, later: Run, flash: spec_fn(int) -> u8)
    requires
        run.hw.wf(),
        !run.since(MacType::Mac_pch_spt),
        0x27 + 2 * run.hw.nvm.flash_bank_size <= 0x00FF_FFFF,
        run.continues(start),
        later.continues(run.detect_bank_by_byte().0),
        serves(start, later, flash),
    ensures
        is_bank(run, flash, run.detect_bank_by_byte().1, run.detect_bank_by_byte().2),
{
    broadcast use {group_resumes, Run::law_read_flash_byte_resumes, Run::law_read_flash_byte_keeps_hw};

    reveal(Run::detect_bank_by_byte);
    run.lemma_start();
    let end = run.detect_bank_by_byte().0;
    let (s, r, b) = run.read_flash_byte(0x27, 0);
    assert(later.continues(s)) by {
        s.lemma_start();
    }
    lemma_byte(run, start, later, flash, 0x27, 0);
    if !valid_signature(b) {
        let at = (0x27 + run.hw.nvm.flash_bank_size * 2) as u32;
        assert(s.continues(run));
        lemma_goes_on(start, run, s);
        assert(end == s.read_flash_byte(at, b).0);
        lemma_byte(s, start, later, flash, at, b);
    }
}

/// Whether looking for the valid bank ended as the signature words in flash
/// say: with the first bank if it is marked as valid, else with the second if
/// that is, else with an error.
pub open spec fn is_bank(
    run: Run,
    flash: spec_fn(int) -> u8,
    r: Result<(), Error>,
    bank: u32,
) -> bool {
    if marks_bank(run, flash, 0x27) {
        r is Ok && bank == 0
    } else if marks_bank(run, flash, 0x27 + 2 * run.hw.nvm.flash_bank_size) {
        r is Ok && bank == 1
    } else {
        r == Err::<(), Error>(Error::NoValidNvmBank) && bank == 0
    }
}

/// The valid bank is found by the signature words in flash, on every family up
/// to Cannon Point, where the controller does what it is told; on ICH8 and ICH9
/// the EEPROM control register says which it is, if it knows.
pub proof fn law_valid_bank_is_found(run: Run, flash: spec_fn(int) -> u8)
    requires
        run.hw.wf(),
        0x27 + 2 * run.hw.nvm.flash_bank_size <= 0x00FF_FFFF,
        serves(run, run.detect_bank().0, flash),
    ensures
        ({
            let (end, r, bank) = run.detect_bank();
            let m = run.hw.mac.mac_type;
            let eecd = run.read_register(0x10).1;
            let told = (m == MacType::Mac_ich8lan || m == MacType::Mac_ich9lan) && eecd & 0x300
                == 0x300;
            &&& told ==> r is Ok && bank == if eecd & 0x0040_0000 != 0 {
                1u32
            } else {
                0u32
            }
            &&& !told && m != MacType::Mac_newer ==> is_bank(run, flash, r, bank)
            &&& m == MacType::Mac_newer ==> r == Err::<(), Error>(Error::DwordAccessOnly)
        }),
{
    broadcast use {
        group_resumes,
        Run::law_detect_bank_by_dword_resumes,
        Run::law_detect_bank_by_byte_resumes,
    };

    reveal(Run::detect_bank);
    let end = run.detect_bank().0;
    run.lemma_start();
    end.lemma_start();
    assert(run.continues(run) && end.continues(end));
    let m = run.hw.mac.mac_type;
    if m == MacType::Mac_pch_spt || m == MacType::Mac_pch_cnp {
        lemma_bank_by_dword(run, run, end, flash);
    } else if m == MacType::Mac_ich8lan || m == MacType::Mac_ich9lan {
        let (s, eecd) = run.read_register(0x10);
        if eecd & 0x300 != 0x300 {
            assert(s.continues(run));
            lemma_bank_by_byte(s, run, end, flash);
        }
    } else if m != MacType::Mac_newer {
        lemma_bank_by_byte(run, run, end, flash);
    } else {
        reveal(Run::detect_bank_by_byte);
        reveal(Run::read_flash_byte);
    }
}

proof fn lemma_words(
    run: Run,
    start: Run,
    later: Run,
    flash: spec_fn(int) -> u8,
    words_of: spec_fn(int) -> u16,
    offset: u16,
    place: int,
    i: int,
    words: int,
    word: u16,
    data: Seq<u16>,
)
    requires
        run.hw.wf(),
        0 <= i <= words,
        0 <= place,
        place + words < 0x8000_0000,
        forall|p: int| #[trigger]
            words_of(p) == flash_word(run.hw.nvm.flash_base_addr as int, flash, p),
        run.continues(start),
        later.continues(run.read_words(offset, place, i, words, word, data).0),
        serves(start, later, flash),
    ensures
        run.words_come_from(words_of, offset, place, i, words, word),
    decreases words - i,
{
    broadcast use {
        group_resumes,
        Run::law_read_words_resumes,
        Run::law_read_flash_word_resumes,
        Run::law_read_flash_data_resumes,
        Run::law_read_flash_data_keeps_hw,
    };

    if i < words {
        match run.hw.pending_word(offset + i) {
            Some(v) => lemma_words(
                run,
                start,
                later,
                flash,
                words_of,
                offset,
                place,
                i + 1,
                words,
                word,
                data.update(i, v),
            ),
            None => {
                let (s, r, w) = run.read_flash_word((place + i) as u32, word);
                if r is Ok {
                    let end = s.read_words(offset, place, i + 1, words, w, data.update(i, w)).0;
                    assert(s.continues(run));
                    lemma_goes_on(start, run, s);
                    assert(end.continues(s));
                    lemma_goes_on(s, end, later);
                    lemma_word(run, start, later, flash, (place + i) as u32, word);
                    assert(words_of(place + i) == w);
                    lemma_words(
                        s,
                        start,
                        later,
                        flash,
                        words_of,
                        offset,
                        place,
                        i + 1,
                        words,
                        w,
                        data.update(i, w),
                    );
                }
            },
        }
    }
}

proof fn lemma_pairs(
    run: Run,
    start: Run,
    later: Run,
    flash: spec_fn(int) -> u8,
    words_of: spec_fn(int) -> u16,
    offset: u16,
    place: int,
    i: int,
    words: int,
    dword: u32,
    data: Seq<u16>,
)
    requires
        run.hw.wf(),
        0 <= i,
        0 <= place,
        place + words < 0x8000_0000,
        forall|p: int| #[trigger]
            words_of(p) == flash_word(run.hw.nvm.flash_base_addr as int, flash, p),
        run.continues(start),
        later.continues(run.read_word_pairs(offset, place, i, words, dword, data).0),
        serves(start, later, flash),
    ensures
        run.pairs_come_from(words_of, offset, place, i, words, dword),
    decreases words - i,
{
    broadcast use {
        group_resumes,
        Run::law_read_word_pairs_resumes,
        Run::law_read_flash_dword_resumes,
        Run::law_read_flash_data32_resumes,
        Run::law_read_flash_data32_keeps_hw,
    };

    if i + 1 == words {
        let even = place + i - (place + i) % 2;
        let (s, r, d) = run.read_flash_dword(even as u32, dword);
        if run.hw.pending_word(offset + i) is None && r is Ok {
            lemma_dword(run, start, later, flash, even as u32, dword);
            assert(words_of(even) == low_word(d) && words_of(even + 1) == high_word(d));
        }
    } else if i + 1 < words {
        let (s, r, d) = run.read_pair(offset, place, i, dword);
        if r is Ok {
            let first = match s.hw.pending_word(offset + i) {
                Some(v) => v,
                None => low_word(d),
            };
            let second = match s.hw.pending_word(offset + i + 1) {
                Some(v) => v,
                None => high_word(d),
            };
            let next = data.update(i, first).update(i + 1, second);
            let end = s.read_word_pairs(offset, place, i + 2, words, d, next).0;
            run.lemma_start();
            assert(run.continues(run));
            assert(s.continues(run));
            lemma_goes_on(start, run, s);
            assert(end.continues(s));
            lemma_goes_on(s, end, later);
            if run.hw.pending_word(offset + i) is None || run.hw.pending_word(
                offset + i + 1,
            ) is None {
                lemma_dword(run, start, later, flash, (place + i) as u32, dword);
                assert(words_of(place + i) == low_word(d) && words_of(place + i + 1) == high_word(
                    d,
                ));
                assert(dword_at(words_of, place + i, d));
            }
            lemma_pairs(s, start, later, flash, words_of, offset, place, i + 2, words, d, next);
        }
    }
}

/// Whether acquiring the NVM leaves it, and the family of the device, as they
/// are.
pub open spec fn acquire_keeps_all(run: Run) -> bool {
    let hw = run.op_nvm_acquire().0.hw;
    &&& run.acquire_keeps_nvm()
    &&& hw.wf()
    &&& hw.nvm.flash_base_addr == run.hw.nvm.flash_base_addr
    &&& hw.mac.mac_type == run.hw.mac.mac_type
}

/// Word `offset` of the NVM: as it was last written and not committed, else as
/// the valid bank in flash holds it. Without a valid bank the first counts.
pub open spec fn word_of_nvm(run: Run, flash: spec_fn(int) -> u8, offset: int) -> u16 {
    let size = run.hw.nvm.flash_bank_size as int;
    let entry = run.hw.dev_spec.shadow_ram[offset];
    if entry.modified {
        entry.value
    } else if !marks_bank(run, flash, 0x27) && marks_bank(run, flash, 0x27 + 2 * size) {
        flash_word(run.hw.nvm.flash_base_addr as int, flash, size + offset)
    } else {
        flash_word(run.hw.nvm.flash_base_addr as int, flash, offset)
    }
}

/// Reading words of the NVM gives those words, on every family before Sunrise
/// Point but ICH8 and ICH9, which may know the bank otherwise; where the
/// controller does what it is told.
pub proof fn law_words_are_read(
    run: Run,
    flash: spec_fn(int) -> u8,
    offset: u16,
    words: u16,
    data: Seq<u16>,
)
    requires
        words <= data.len(),
        acquire_keeps_all(run),
        0x27 + 2 * run.hw.nvm.flash_bank_size <= 0x00FF_FFFF,
        run.hw.mac.mac_type == MacType::Mac_ich10lan || run.hw.mac.mac_type == MacType::Mac_pchlan
            || run.hw.mac.mac_type == MacType::Mac_pch2lan || run.hw.mac.mac_type
            == MacType::Mac_pch_lpt,
        serves(run, run.read_nvm_by_word(offset, words, data).0, flash),
        run.read_nvm_by_word(offset, words, data).1 is Ok,
    ensures
        forall|j: int|
            0 <= j < words ==> #[trigger] run.read_nvm_by_word(offset, words, data).2[j]
                == word_of_nvm(run, flash, offset + j),
{
    broadcast use {
        group_resumes,
        Run::law_op_nvm_acquire_resumes,
        Run::law_op_nvm_release_and_resumes,
        Run::law_detect_bank_by_byte_resumes,
        Run::law_detect_bank_resumes,
        Run::law_read_words_resumes,
    };

    reveal(Run::read_nvm_by_word);
    run.lemma_start();
    let (end, _, out) = run.read_nvm_by_word(offset, words, data);
    let base = run.hw.nvm.flash_base_addr as int;
    let words_of = |p: int| flash_word(base, flash, p);
    let (s, _) = run.op_nvm_acquire();
    let (t, _, _) = s.detect_bank();
    law_detect_bank(s);
    let place = t.place_in_bank(run.bank_read(), offset);
    let (u, _, _) = t.read_words(offset, place, 0, words as int, 0, data);
    assert(end.continues(t)) by {
        t.lemma_start();
    }
    assert(end.continues(u));
    assert(s.continues(run) && t.continues(run));
    assert(s.detect_bank() == s.detect_bank_by_byte()) by {
        reveal(Run::detect_bank);
    }
    lemma_bank_by_byte(s, run, end, flash);
    lemma_words(t, run, end, flash, words_of, offset, place, 0, words as int, 0, data);
    law_words_are_nvm_words(run, words_of, offset, words, data);
}

/// The same of reads by doublewords, on Sunrise Point and Cannon Point.
pub proof fn law_halves_are_read(
    run: Run,
    flash: spec_fn(int) -> u8,
    offset: u16,
    words: u16,
    data: Seq<u16>,
)
    requires
        words <= data.len(),
        acquire_keeps_all(run),
        0x27 + 2 * run.hw.nvm.flash_bank_size <= 0x00FF_FFFF,
        run.hw.mac.mac_type == MacType::Mac_pch_spt || run.hw.mac.mac_type == MacType::Mac_pch_cnp,
        serves(run, run.read_nvm_by_dword(offset, words, data).0, flash),
        run.read_nvm_by_dword(offset, words, data).1 is Ok,
    ensures
        forall|j: int|
            0 <= j < words ==> #[trigger] run.read_nvm_by_dword(offset, words, data).2[j]
                == word_of_nvm(run, flash, offset + j),
{
    broadcast use {
        group_resumes,
        Run::law_op_nvm_acquire_resumes,
        Run::law_op_nvm_release_and_resumes,
        Run::law_detect_bank_by_dword_resumes,
        Run::law_detect_bank_resumes,
        Run::law_read_word_pairs_resumes,
    };

    reveal(Run::read_nvm_by_dword);
    run.lemma_start();
    let (end, _, out) = run.read_nvm_by_dword(offset, words, data);
    let base = run.hw.nvm.flash_base_addr as int;
    let words_of = |p: int| flash_word(base, flash, p);
    let (s, _) = run.op_nvm_acquire();
    let (t, _, _) = s.detect_bank();
    law_detect_bank(s);
    let place = t.place_in_bank(run.bank_read(), offset);
    let (u, _, _) = t.read_word_pairs(offset, place, 0, words as int, 0, data);
    assert(end.continues(t)) by {
        t.lemma_start();
    }
    assert(end.continues(u));
    assert(s.continues(run) && t.continues(run));
    assert(s.detect_bank() == s.detect_bank_by_dword()) by {
        reveal(Run::detect_bank);
    }
    lemma_bank_by_dword(s, run, end, flash);
    lemma_pairs(t, run, end, flash, words_of, offset, place, 0, words as int, 0, data);
    law_halves_are_nvm_words(run, words_of, offset, words, data);
}

/// The checksum. The word that says whether it is right, 3 on Lynx Point,
/// Sunrise Point and Cannon Point with bit 0 and 0x19 elsewhere with bit 6, is
/// read first; if the bit is set the checksum is validated at once, else the
/// bit is set, the checksum updated, and the checksum validated. Nothing is
/// validated once a step has failed.
pub proof fn law_checksum_is_validated(run: Run)
    ensures
        ({
            let (end, r) = run.validate_nvm();
            let m = run.hw.mac.mac_type;
            let (word, bit): (u16, u16) = if m == MacType::Mac_pch_lpt || m == MacType::Mac_pch_spt
                || m == MacType::Mac_pch_cnp {
                (3, 1)
            } else {
                (0x19, 0x40)
            };
            let (s, read, data) = run.nvm_read_word(word, 0);
            let (t, write) = s.call(Call::NvmWriteWord(word, data | bit));
            let (u, update) = t.op_nvm_update();
            &&& read is Err ==> (end, r) == (s, read)
            &&& read is Ok && data & bit != 0 ==> {
                let (v, a) = s.call(Call::ValidateNvmChecksumGeneric);
                (end, r) == (v, a.result)
            }
            &&& read is Ok && data & bit == 0 && write.result is Err ==> (end, r) == (
                t,
                write.result,
            )
            &&& read is Ok && data & bit == 0 && write.result is Ok && update is Err ==> (end, r)
                == (u, update)
            &&& read is Ok && data & bit == 0 && write.result is Ok && update is Ok ==> {
                let (v, a) = u.call(Call::ValidateNvmChecksumGeneric);
                (end, r) == (v, a.result)
            }
        }),
{
    reveal(Run::validate_nvm);
}

/// The LED settings are word 4 of the NVM, but for all zeros and all ones, in
/// whose place 0x1981 comes.
pub proof fn law_led_settings_are_read(run: Run, data: u16)
    ensures
        ({
            let (end, r, settings) = run.led_settings(data);
            let (s, read, v) = run.nvm_read_word(4, data);
            &&& end == s
            &&& r is Ok <==> read is Ok
            &&& read is Err ==> r == read && settings == v
            &&& read is Ok && v != 0 && v != 0xFFFF ==> settings == v
            &&& read is Ok && (v == 0 || v == 0xFFFF) ==> settings == 0x1981
        }),
{
    reveal(Run::led_settings);
}

} // verus!
