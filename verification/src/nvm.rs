//! The non-volatile memory: its two banks in flash, the shadow RAM that holds
//! words not committed yet, and the words that the driver looks at.

use vstd::prelude::*;
use crate::bits::lemma_nvm_sizes;
use crate::consts::{
    E1000_EECD, E1000_EECD_SEC1VAL, E1000_EECD_SEC1VAL_VALID_MASK, E1000_FLASH_BASE_ADDR,
    E1000_ICH_NVM_SIG_VALUE, E1000_ICH_NVM_SIG_WORD, E1000_ICH_NVM_VALID_SIG_MASK,
    E1000_SHADOW_RAM_WORDS, E1000_STRAP, FLASH_GFPREG_BASE_MASK, FLASH_SECTOR_ADDR_SHIFT,
    ICH_FLASH_GFPREG, ID_LED_DEFAULT_ICH8LAN, ID_LED_RESERVED_0000, ID_LED_RESERVED_FFFF,
    NVM_COMPAT, NVM_COMPAT_VALID_CSUM, NVM_FUTURE_INIT_WORD1, NVM_FUTURE_INIT_WORD1_VALID_CSUM,
    NVM_ID_LED_SETTINGS, NVM_SIZE_MULTIPLIER,
};
use crate::error::{AdResult, Error};
use crate::flash::{read_flash_byte_ich8lan, read_flash_dword_ich8lan, read_flash_word_ich8lan};
use crate::hw::{DevSpecIch8lan, Func, Hw, MacType, NvmInfo, NvmOps, NvmType, ShadowRam};
use crate::io::{group_continues, Action, Adapter, Call, Feature, Run};

verus! {

/// Whether a signature byte marks its bank as valid.
pub open spec fn valid_signature(byte: u8) -> bool {
    byte & E1000_ICH_NVM_VALID_SIG_MASK == E1000_ICH_NVM_SIG_VALUE
}

/// The signature byte in the doubleword that begins with the signature word.
pub open spec fn signature_byte(dword: u32) -> u8 {
    ((dword & 0xFF00) >> 8) as u8
}

/// The word in the lower half of a doubleword.
pub open spec fn low_word(dword: u32) -> u16 {
    (dword & 0xFFFF) as u16
}

/// The word in the upper half of a doubleword.
pub open spec fn high_word(dword: u32) -> u16 {
    ((dword >> 16) & 0xFFFF) as u16
}

/// A shadow RAM without a modified word.
pub open spec fn blank_shadow_ram() -> [ShadowRam; 2048] {
    vstd::array::spec_array_fill_for_copy_type::<ShadowRam, 2048>(
        ShadowRam { modified: false, value: 0xFFFF },
    )
}

impl Hw {
    /// The state once the size and place of the NVM are known.
    pub open spec fn with_nvm_params(self, base: u32, bank_size: u32, flash_address: u64) -> Hw {
        let new = self.mac.mac_type.since(MacType::Mac_pch_spt);
        Hw {
            nvm: NvmInfo {
                nvm_type: NvmType::FlashSw,
                word_size: E1000_SHADOW_RAM_WORDS,
                flash_base_addr: base,
                flash_bank_size: bank_size,
                ops: NvmOps {
                    init_params: self.nvm.ops.init_params,
                    acquire: Some(Func::AcquireNvmIch8lan),
                    release: Some(Func::ReleaseNvmIch8lan),
                    read: Some(
                        if new {
                            Func::ReadNvmSpt
                        } else {
                            Func::ReadNvmIch8lan
                        },
                    ),
                    update: Some(
                        if new {
                            Func::UpdateNvmChecksumSpt
                        } else {
                            Func::UpdateNvmChecksumIch8lan
                        },
                    ),
                    valid_led_default: Some(Func::ValidLedDefaultIch8lan),
                    validate: Some(Func::ValidateNvmChecksumIch8lan),
                    write: Some(Func::WriteNvmIch8lan),
                },
            },
            dev_spec: DevSpecIch8lan { shadow_ram: blank_shadow_ram(), ..self.dev_spec },
            flash_address,
            ..self
        }
    }

    /// The word at `offset` as it was last written and not committed, if so.
    pub open spec fn pending_word(self, offset: int) -> Option<u16> {
        if self.dev_spec.shadow_ram[offset].modified {
            Some(self.dev_spec.shadow_ram[offset].value)
        } else {
            None
        }
    }
}

/// The words in one bank when the size field of the strapping register is
/// `strap`.
pub open spec fn strapped_bank_size(strap: u32) -> int {
    ((((strap >> 1) & 0x1F) + 1) * NVM_SIZE_MULTIPLIER) / 4
}

/// The first sector of the NVM that the flash region register describes.
pub open spec fn first_sector(gfpreg: u32) -> u32 {
    gfpreg & FLASH_GFPREG_BASE_MASK
}

/// The sector after the last one of the NVM.
pub open spec fn end_sector(gfpreg: u32) -> u32 {
    (((gfpreg >> 16) & FLASH_GFPREG_BASE_MASK) + 1) as u32
}

/// The words in one of the two banks that share the sectors of the region.
pub open spec fn region_bank_size(gfpreg: u32) -> u32 {
    (end_sector(gfpreg).wrapping_sub(first_sector(gfpreg)) << FLASH_SECTOR_ADDR_SHIFT) / 4
}

impl Run {
    /// Whether `words` words from `offset` on are a part of the NVM, and not
    /// an empty one.
    pub open spec fn nvm_in_bounds(self, offset: u16, words: u16) -> bool {
        0 < words && offset + words <= self.hw.nvm.word_size
    }

    /// Acquires the NVM by way of the table of operations.
    #[verifier::opaque]
    pub open spec fn op_nvm_acquire(self) -> (Run, AdResult) {
        match self.hw.nvm.ops.acquire {
            None => (self, Err(Error::NoFunction)),
            Some(Func::AcquireNvmIch8lan) => (self.act(Action::AssertCtxLockHeld), Ok(())),
            Some(f) => self.invoke(Call::Op(f)),
        }
    }

    /// Releases the NVM by way of the table of operations, and ends with
    /// `res` if the table names a function that does so.
    #[verifier::opaque]
    pub open spec fn op_nvm_release_and(self, res: AdResult) -> (Run, AdResult) {
        match self.hw.nvm.ops.release {
            None => (self, Err(Error::NoFunction)),
            Some(Func::ReleaseNvmIch8lan) => (self.act(Action::AssertCtxLockHeld), res),
            Some(f) => (self.call(Call::Op(f)).0, res),
        }
    }

    /// Updates the checksum by way of the table of operations.
    #[verifier::opaque]
    pub open spec fn op_nvm_update(self) -> (Run, AdResult) {
        match self.hw.nvm.ops.update {
            None => (self, Err(Error::NoFunction)),
            Some(Func::UpdateNvmChecksumSpt) => self.incomplete(Feature::UpdateNvmChecksumSpt),
            Some(Func::UpdateNvmChecksumIch8lan) => self.incomplete(
                Feature::UpdateNvmChecksumIch8lan,
            ),
            Some(f) => self.invoke(Call::Op(f)),
        }
    }

    /// Looks for the signature by doubleword reads, in the first bank and
    /// then in the second.
    #[verifier::opaque]
    pub open spec fn detect_bank_by_dword(self) -> (Run, AdResult, u32) {
        let (s, r, dword) = self.read_flash_dword(E1000_ICH_NVM_SIG_WORD, 0);
        if r is Err {
            (s, r, 0)
        } else if valid_signature(signature_byte(dword)) {
            (s, Ok(()), 0)
        } else {
            let at = (E1000_ICH_NVM_SIG_WORD + self.hw.nvm.flash_bank_size) as u32;
            let (s, r, dword) = s.read_flash_dword(at, dword);
            if r is Err {
                (s, r, 0)
            } else if valid_signature(signature_byte(dword)) {
                (s, Ok(()), 1)
            } else {
                (s, Err(Error::NoValidNvmBank), 0)
            }
        }
    }

    /// Looks for the signature by byte reads, in the first bank and then in
    /// the second.
    #[verifier::opaque]
    pub open spec fn detect_bank_by_byte(self) -> (Run, AdResult, u32) {
        let at = E1000_ICH_NVM_SIG_WORD * 2 + 1;
        let (s, r, byte) = self.read_flash_byte(at as u32, 0);
        if r is Err {
            (s, r, 0)
        } else if valid_signature(byte) {
            (s, Ok(()), 0)
        } else {
            let second = (at + self.hw.nvm.flash_bank_size * 2) as u32;
            let (s, r, byte) = s.read_flash_byte(second, byte);
            if r is Err {
                (s, r, 0)
            } else if valid_signature(byte) {
                (s, Ok(()), 1)
            } else {
                (s, Err(Error::NoValidNvmBank), 0)
            }
        }
    }

    /// Finds the valid bank: on ICH8 and ICH9 from the EEPROM control register
    /// if that knows, else from the signature.
    #[verifier::opaque]
    pub open spec fn detect_bank(self) -> (Run, AdResult, u32) {
        if self.is_mac(MacType::Mac_pch_spt) || self.is_mac(MacType::Mac_pch_cnp) {
            self.detect_bank_by_dword()
        } else if self.is_mac(MacType::Mac_ich8lan) || self.is_mac(MacType::Mac_ich9lan) {
            let (s, eecd) = self.read_register(E1000_EECD);
            if eecd & E1000_EECD_SEC1VAL_VALID_MASK == E1000_EECD_SEC1VAL_VALID_MASK {
                (
                    s,
                    Ok(()),
                    if eecd & E1000_EECD_SEC1VAL != 0 {
                        1
                    } else {
                        0
                    },
                )
            } else {
                s.detect_bank_by_byte()
            }
        } else {
            self.detect_bank_by_byte()
        }
    }

    /// The place of word `offset` in flash, in words.
    pub open spec fn place_in_bank(self, bank: u32, offset: u16) -> int {
        offset + if bank != 0 {
            self.hw.nvm.flash_bank_size as int
        } else {
            0
        }
    }

    /// Reads the words from index `i` on, of `words` words that begin at NVM
    /// word `offset` and flash word `place`: a pending word from the shadow
    /// RAM, another from flash. `word` is what the last flash read gave, which
    /// a read that does not complete gives again.
    pub open spec fn read_words(
        self,
        offset: u16,
        place: int,
        i: int,
        words: int,
        word: u16,
        data: Seq<u16>,
    ) -> (Run, AdResult, Seq<u16>)
        decreases words - i,
    {
        if i >= words {
            (self, Ok(()), data)
        } else {
            match self.hw.pending_word(offset + i) {
                Some(v) => self.read_words(offset, place, i + 1, words, word, data.update(i, v)),
                None => {
                    let (s, r, w) = self.read_flash_word((place + i) as u32, word);
                    if r is Err {
                        (s, r, data)
                    } else {
                        s.read_words(offset, place, i + 1, words, w, data.update(i, w))
                    }
                },
            }
        }
    }

    /// The same by doubleword reads, a pair of words at a time; a last word
    /// without a partner comes from the doubleword that is aligned.
    pub open spec fn read_word_pairs(
        self,
        offset: u16,
        place: int,
        i: int,
        words: int,
        dword: u32,
        data: Seq<u16>,
    ) -> (Run, AdResult, Seq<u16>)
        decreases words - i,
    {
        if i >= words {
            (self, Ok(()), data)
        } else if words - i == 1 {
            self.read_last_word(offset, place, i, dword, data)
        } else {
            let (s, r, dword) = self.read_pair(offset, place, i, dword);
            if r is Err {
                (s, r, data)
            } else {
                let first = match s.hw.pending_word(offset + i) {
                    Some(v) => v,
                    None => low_word(dword),
                };
                let second = match s.hw.pending_word(offset + i + 1) {
                    Some(v) => v,
                    None => high_word(dword),
                };
                let data = data.update(i, first).update(i + 1, second);
                s.read_word_pairs(offset, place, i + 2, words, dword, data)
            }
        }
    }

    /// Reads the doubleword that holds a pair of words, unless both words are
    /// pending.
    pub open spec fn read_pair(self, offset: u16, place: int, i: int, dword: u32) -> (
        Run,
        AdResult,
        u32,
    ) {
        if self.hw.pending_word(offset + i) is None || self.hw.pending_word(
            offset + i + 1,
        ) is None {
            self.read_flash_dword((place + i) as u32, dword)
        } else {
            (self, Ok(()), dword)
        }
    }

    /// Reads a last word that has no partner.
    pub open spec fn read_last_word(
        self,
        offset: u16,
        place: int,
        i: int,
        dword: u32,
        data: Seq<u16>,
    ) -> (Run, AdResult, Seq<u16>) {
        match self.hw.pending_word(offset + i) {
            Some(v) => (self, Ok(()), data.update(i, v)),
            None => {
                let odd = (place + i) % 2;
                let (s, r, dword) = self.read_flash_dword((place + i - odd) as u32, dword);
                if r is Err {
                    (s, r, data)
                } else if odd == 0 {
                    (s, Ok(()), data.update(i, low_word(dword)))
                } else {
                    (s, Ok(()), data.update(i, high_word(dword)))
                }
            },
        }
    }

    /// Reads words of the NVM by doublewords, from Sunrise Point on. Without a
    /// valid bank nothing is read, and the NVM is not released.
    #[verifier::opaque]
    pub open spec fn read_nvm_by_dword(self, offset: u16, words: u16, data: Seq<u16>) -> (
        Run,
        AdResult,
        Seq<u16>,
    ) {
        if !self.nvm_in_bounds(offset, words) {
            (self, Err(Error::NvmParameters), data)
        } else {
            let (s, r) = self.op_nvm_acquire();
            if r is Err {
                (s, r, data)
            } else {
                let (s, r, bank) = s.detect_bank();
                if r is Err {
                    (s, r, data)
                } else {
                    let place = s.place_in_bank(bank, offset);
                    let (s, r, out) = s.read_word_pairs(offset, place, 0, words as int, 0, data);
                    let (s, r) = s.op_nvm_release_and(r);
                    (s, r, out)
                }
            }
        }
    }

    /// Reads words of the NVM by words, before Sunrise Point. Without a valid
    /// bank the first one is taken.
    #[verifier::opaque]
    pub open spec fn read_nvm_by_word(self, offset: u16, words: u16, data: Seq<u16>) -> (
        Run,
        AdResult,
        Seq<u16>,
    ) {
        if !self.nvm_in_bounds(offset, words) {
            (self, Err(Error::NvmParameter), data)
        } else {
            let (s, r) = self.op_nvm_acquire();
            if r is Err {
                (s, r, data)
            } else {
                let (s, r, bank) = s.detect_bank();
                let place = s.place_in_bank(
                    if r is Ok {
                        bank
                    } else {
                        0
                    },
                    offset,
                );
                let (s, r, out) = s.read_words(offset, place, 0, words as int, 0, data);
                let (s, r) = s.op_nvm_release_and(r);
                (s, r, out)
            }
        }
    }

    /// Sees to it that the NVM says that its checksum is right, updating the
    /// checksum where it did not, and validates the checksum.
    #[verifier::opaque]
    pub open spec fn validate_nvm(self) -> (Run, AdResult) {
        let (word, mask) = if self.is_mac(MacType::Mac_pch_lpt) || self.is_mac(MacType::Mac_pch_spt)
            || self.is_mac(MacType::Mac_pch_cnp) {
            (NVM_COMPAT, NVM_COMPAT_VALID_CSUM)
        } else {
            (NVM_FUTURE_INIT_WORD1, NVM_FUTURE_INIT_WORD1_VALID_CSUM)
        };
        let (s, r, data) = self.nvm_read_word(word, 0);
        if r is Err {
            (s, r)
        } else if data & mask != 0 {
            s.invoke(Call::ValidateNvmChecksumGeneric)
        } else {
            let (s, r) = s.invoke(Call::NvmWriteWord(word, data | mask));
            if r is Err {
                (s, r)
            } else {
                let (s, r) = s.op_nvm_update();
                if r is Err {
                    (s, r)
                } else {
                    s.invoke(Call::ValidateNvmChecksumGeneric)
                }
            }
        }
    }

    /// Reads the identification LED settings, with a default in place of all
    /// zeros or all ones.
    #[verifier::opaque]
    pub open spec fn led_settings(self, data: u16) -> (Run, AdResult, u16) {
        let (s, r, v) = self.nvm_read_word(NVM_ID_LED_SETTINGS, data);
        if r is Err {
            (s, r, v)
        } else if v == ID_LED_RESERVED_0000 || v == ID_LED_RESERVED_FFFF {
            (s, Ok(()), ID_LED_DEFAULT_ICH8LAN)
        } else {
            (s, Ok(()), v)
        }
    }

    /// Reads the identification LED settings by way of the table of
    /// operations.
    #[verifier::opaque]
    pub open spec fn op_led_settings(self, data: u16) -> (Run, AdResult, u16) {
        match self.hw.nvm.ops.valid_led_default {
            None => (self, Err(Error::NoFunction), data),
            Some(Func::ValidLedDefaultIch8lan) => self.led_settings(data),
            Some(f) => self.fetch(Call::OpLedDefault(f, data)),
        }
    }

    /// Finds the size and place of the NVM and fills in the table of
    /// operations. From Sunrise Point on the flash registers follow the MAC
    /// registers; before, they have to be mapped.
    #[verifier::opaque]
    pub open spec fn init_nvm(self) -> (Run, AdResult) {
        if self.since(MacType::Mac_pch_spt) {
            let (s, strap) = self.read_register(E1000_STRAP);
            let address = (self.hw.hw_addr + E1000_FLASH_BASE_ADDR) as u64;
            (
                s.with_hw(s.hw.with_nvm_params(0, strapped_bank_size(strap) as u32, address)),
                Ok(()),
            )
        } else if self.hw.flash_address == 0 {
            (
                self.with_hw(
                    Hw { nvm: NvmInfo { nvm_type: NvmType::FlashSw, ..self.hw.nvm }, ..self.hw },
                ),
                Err(Error::FlashNotMapped),
            )
        } else {
            let (s, gfpreg) = self.read_flash_register(ICH_FLASH_GFPREG);
            (
                s.with_hw(
                    s.hw.with_nvm_params(
                        first_sector(gfpreg) << FLASH_SECTOR_ADDR_SHIFT,
                        region_bank_size(gfpreg),
                        self.hw.flash_address,
                    ),
                ),
                Ok(()),
            )
        }
    }
}

/// A bank is valid exactly if bits 15 and 14 of its signature word are 1 and
/// 0; by doublewords that word is read as the lower half.
pub proof fn law_signature(dword: u32)
    ensures
        valid_signature(signature_byte(dword)) <==> low_word(dword) & 0x8000 != 0 && low_word(dword)
            & 0x4000 == 0,
{
    assert(((((dword & 0xFF00) >> 8) as u8) & 0xC0 == 0x80) == (((dword & 0xFFFF) as u16) & 0x8000
        != 0 && ((dword & 0xFFFF) as u16) & 0x4000 == 0)) by (bit_vector);
}

/// A doubleword is made up of its two words.
pub proof fn law_words_of_dword(dword: u32)
    ensures
        low_word(dword) as u32 | ((high_word(dword) as u32) << 16) == dword,
{
    assert(((dword & 0xFFFF) as u16) as u32 | (((((dword >> 16) & 0xFFFF) as u16) as u32) << 16)
        == dword) by (bit_vector);
}

/// There are two banks; without a valid one the bank is the first; and finding
/// the bank leaves the software state as it is.
pub proof fn law_detect_bank(run: Run)
    ensures
        run.detect_bank().2 <= 1,
        run.detect_bank().1 is Err ==> run.detect_bank().2 == 0,
        run.detect_bank().0.hw == run.hw,
{
    broadcast use {
        group_continues,
        Run::law_read_flash_byte_keeps_hw,
        Run::law_read_flash_data32_keeps_hw,
    };

    reveal(Run::detect_bank);
    reveal(Run::detect_bank_by_dword);
    reveal(Run::detect_bank_by_byte);
}

/// Words that are not a part of the NVM are not read: that is an error, the
/// device is not touched, and the data is left as it is.
pub proof fn law_nvm_bounds(run: Run, offset: u16, words: u16, data: Seq<u16>)
    requires
        !run.nvm_in_bounds(offset, words),
    ensures
        run.read_nvm_by_word(offset, words, data) == (
            run,
            Err::<(), Error>(Error::NvmParameter),
            data,
        ),
        run.read_nvm_by_dword(offset, words, data) == (
            run,
            Err::<(), Error>(Error::NvmParameters),
            data,
        ),
{
    reveal(Run::read_nvm_by_word);
    reveal(Run::read_nvm_by_dword);
}

impl Hw {
    /// Whether `out` is what reading `words` words at `offset` into `data` may
    /// give: as long as `data`, the same beyond the words read, and with each
    /// pending word as it was written.
    pub open spec fn admits(self, offset: u16, words: int, data: Seq<u16>, out: Seq<u16>) -> bool {
        &&& out.len() == data.len()
        &&& forall|j: int| words <= j < data.len() ==> #[trigger] out[j] == data[j]
        &&& forall|j: int|
            #![trigger out[j]]
            0 <= j < words ==> (self.pending_word(offset + j) matches Some(v) ==> out[j] == v)
    }
}

impl Run {
    proof fn lemma_read_words(
        self,
        offset: u16,
        place: int,
        i: int,
        words: int,
        word: u16,
        data: Seq<u16>,
    )
        requires
            0 <= i <= words <= data.len(),
        ensures
            ({
                let (s, r, out) = self.read_words(offset, place, i, words, word, data);
                &&& s.hw == self.hw
                &&& out.len() == data.len()
                &&& forall|j: int| 0 <= j < i || words <= j < data.len() ==> out[j] == data[j]
                &&& r is Ok ==> forall|j: int|
                    #![trigger out[j]]
                    i <= j < words ==> (self.hw.pending_word(offset + j) matches Some(v) ==> out[j]
                        == v)
            }),
        decreases words - i,
    {
        broadcast use Run::law_read_flash_data_keeps_hw;

        if i < words {
            match self.hw.pending_word(offset + i) {
                Some(v) => self.lemma_read_words(
                    offset,
                    place,
                    i + 1,
                    words,
                    word,
                    data.update(i, v),
                ),
                None => {
                    let (s, r, w) = self.read_flash_word((place + i) as u32, word);
                    s.lemma_read_words(offset, place, i + 1, words, w, data.update(i, w));
                },
            }
        }
    }

    proof fn lemma_read_word_pairs(
        self,
        offset: u16,
        place: int,
        i: int,
        words: int,
        dword: u32,
        data: Seq<u16>,
    )
        requires
            0 <= i,
            words <= data.len(),
        ensures
            ({
                let (s, r, out) = self.read_word_pairs(offset, place, i, words, dword, data);
                &&& s.hw == self.hw
                &&& out.len() == data.len()
                &&& forall|j: int| 0 <= j < i || words <= j < data.len() ==> out[j] == data[j]
                &&& r is Ok ==> forall|j: int|
                    #![trigger out[j]]
                    i <= j < words ==> (self.hw.pending_word(offset + j) matches Some(v) ==> out[j]
                        == v)
            }),
        decreases words - i,
    {
        broadcast use Run::law_read_flash_data32_keeps_hw;

        if i + 1 < words {
            let (s, _, d) = self.read_pair(offset, place, i, dword);
            let first = match s.hw.pending_word(offset + i) {
                Some(v) => v,
                None => low_word(d),
            };
            let second = match s.hw.pending_word(offset + i + 1) {
                Some(v) => v,
                None => high_word(d),
            };
            let out = data.update(i, first).update(i + 1, second);
            s.lemma_read_word_pairs(offset, place, i + 2, words, d, out);
        }
    }
}

impl Run {
    /// Whether acquiring the NVM leaves the size of its banks and the shadow
    /// RAM as they are.
    pub open spec fn acquire_keeps_nvm(self) -> bool {
        let hw = self.op_nvm_acquire().0.hw;
        &&& hw.nvm.flash_bank_size == self.hw.nvm.flash_bank_size
        &&& hw.dev_spec.shadow_ram == self.hw.dev_spec.shadow_ram
    }
}

/// Acquiring the NVM leaves it as it is if the function for that is this
/// crate's or there is none; another one may do as it likes.
pub proof fn law_acquire_keeps_nvm(run: Run)
    requires
        run.hw.nvm.ops.acquire == Some(Func::AcquireNvmIch8lan) || run.hw.nvm.ops.acquire is None,
    ensures
        run.acquire_keeps_nvm(),
{
    broadcast use group_continues;

    reveal(Run::op_nvm_acquire);
}

/// Words that were written and not committed are read as they were written,
/// and nothing beyond the words asked for is changed.
pub proof fn law_pending_words_are_read(run: Run, offset: u16, words: u16, data: Seq<u16>)
    requires
        words <= data.len(),
        run.acquire_keeps_nvm(),
    ensures
        run.read_nvm_by_word(offset, words, data).1 is Ok ==> run.hw.admits(
            offset,
            words as int,
            data,
            run.read_nvm_by_word(offset, words, data).2,
        ),
        run.read_nvm_by_dword(offset, words, data).1 is Ok ==> run.hw.admits(
            offset,
            words as int,
            data,
            run.read_nvm_by_dword(offset, words, data).2,
        ),
{
    broadcast use group_continues;

    reveal(Run::read_nvm_by_word);
    reveal(Run::read_nvm_by_dword);
    reveal(Run::op_nvm_release_and);
    let (s, _) = run.op_nvm_acquire();
    law_detect_bank(s);
    let (s, r, bank) = s.detect_bank();
    let place = s.place_in_bank(bank, offset);
    s.lemma_read_word_pairs(offset, place, 0, words as int, 0, data);
    let place = s.place_in_bank(
        if r is Ok {
            bank
        } else {
            0
        },
        offset,
    );
    s.lemma_read_words(offset, place, 0, words as int, 0, data);
}

/// Whether a doubleword is made up of the words that `flash` holds at `place`
/// and after it.
pub open spec fn dword_at(flash: spec_fn(int) -> u16, place: int, dword: u32) -> bool {
    low_word(dword) == flash(place) && high_word(dword) == flash(place + 1)
}

impl Hw {
    /// NVM word `offset` where the flash holds `flash`, by words, and `bank` is
    /// the valid bank: the pending word if there is one.
    pub open spec fn nvm_word(self, flash: spec_fn(int) -> u16, bank: u32, offset: int) -> u16 {
        match self.pending_word(offset) {
            Some(v) => v,
            None => flash(
                offset + if bank != 0 {
                    self.nvm.flash_bank_size as int
                } else {
                    0
                },
            ),
        }
    }
}

impl Run {
    /// Whether each flash word that `read_words` reads is the one that `flash`
    /// holds there.
    pub open spec fn words_come_from(
        self,
        flash: spec_fn(int) -> u16,
        offset: u16,
        place: int,
        i: int,
        words: int,
        word: u16,
    ) -> bool
        decreases words - i,
    {
        if i >= words {
            true
        } else if self.hw.pending_word(offset + i) is Some {
            self.words_come_from(flash, offset, place, i + 1, words, word)
        } else {
            let (s, r, w) = self.read_flash_word((place + i) as u32, word);
            r is Ok ==> w == flash(place + i) && s.words_come_from(
                flash,
                offset,
                place,
                i + 1,
                words,
                w,
            )
        }
    }

    /// Whether each flash doubleword that `read_word_pairs` reads is made up of
    /// the two words that `flash` holds there.
    pub open spec fn pairs_come_from(
        self,
        flash: spec_fn(int) -> u16,
        offset: u16,
        place: int,
        i: int,
        words: int,
        dword: u32,
    ) -> bool
        decreases words - i,
    {
        if i >= words {
            true
        } else if words - i == 1 {
            let even = place + i - (place + i) % 2;
            let (_, r, d) = self.read_flash_dword(even as u32, dword);
            self.hw.pending_word(offset + i) is None && r is Ok ==> dword_at(flash, even, d)
        } else {
            let (s, r, d) = self.read_pair(offset, place, i, dword);
            let pending = self.hw.pending_word(offset + i) is Some && self.hw.pending_word(
                offset + i + 1,
            ) is Some;
            r is Ok ==> (pending || dword_at(flash, place + i, d)) && s.pairs_come_from(
                flash,
                offset,
                place,
                i + 2,
                words,
                d,
            )
        }
    }

    /// The bank that a read takes its words from.
    pub open spec fn bank_read(self) -> u32 {
        let (_, r, bank) = self.op_nvm_acquire().0.detect_bank();
        if r is Ok {
            bank
        } else {
            0
        }
    }

    /// Whether a read sees the same NVM as one from `other`: the same banks,
    /// pending words and valid bank.
    pub open spec fn same_nvm(self, other: Run) -> bool {
        &&& self.acquire_keeps_nvm()
        &&& self.hw.nvm.flash_bank_size == other.hw.nvm.flash_bank_size
        &&& self.hw.dev_spec.shadow_ram == other.hw.dev_spec.shadow_ram
        &&& self.bank_read() == other.bank_read()
    }

    /// Whether each flash word that a read of the NVM by words reads, beyond
    /// those that tell the valid bank, is the one that `flash` holds there.
    pub open spec fn nvm_read_from(self, flash: spec_fn(int) -> u16, offset: u16, words: u16) -> bool {
        let s = self.op_nvm_acquire().0.detect_bank().0;
        s.words_come_from(
            flash,
            offset,
            s.place_in_bank(self.bank_read(), offset),
            0,
            words as int,
            0,
        )
    }

    /// Whether each flash doubleword that a read of the NVM by doublewords
    /// reads, beyond those that tell the valid bank, is made up of the words
    /// that `flash` holds there.
    pub open spec fn nvm_read_by_dword_from(
        self,
        flash: spec_fn(int) -> u16,
        offset: u16,
        words: u16,
    ) -> bool {
        let s = self.op_nvm_acquire().0.detect_bank().0;
        s.pairs_come_from(
            flash,
            offset,
            s.place_in_bank(self.bank_read(), offset),
            0,
            words as int,
            0,
        )
    }

    proof fn lemma_pairs_are_nvm_words(
        self,
        flash: spec_fn(int) -> u16,
        offset: u16,
        bank: u32,
        i: int,
        words: int,
        dword: u32,
        data: Seq<u16>,
    )
        requires
            0 <= i,
            words <= data.len(),
            self.pairs_come_from(flash, offset, self.place_in_bank(bank, offset), i, words, dword),
        ensures
            ({
                let place = self.place_in_bank(bank, offset);
                let (_, r, out) = self.read_word_pairs(offset, place, i, words, dword, data);
                r is Ok ==> forall|j: int|
                    i <= j < words ==> #[trigger] out[j] == self.hw.nvm_word(flash, bank, offset + j)
            }),
        decreases words - i,
    {
        broadcast use Run::law_read_flash_data32_keeps_hw;

        if i + 1 < words {
            let place = self.place_in_bank(bank, offset);
            let (s, r, d) = self.read_pair(offset, place, i, dword);
            let first = match s.hw.pending_word(offset + i) {
                Some(v) => v,
                None => low_word(d),
            };
            let second = match s.hw.pending_word(offset + i + 1) {
                Some(v) => v,
                None => high_word(d),
            };
            let next = data.update(i, first).update(i + 1, second);
            if r is Ok {
                s.lemma_pairs_are_nvm_words(flash, offset, bank, i + 2, words, d, next);
                s.lemma_read_word_pairs(offset, place, i + 2, words, d, next);
            }
        }
    }

    proof fn lemma_words_are_nvm_words(
        self,
        flash: spec_fn(int) -> u16,
        offset: u16,
        bank: u32,
        i: int,
        words: int,
        word: u16,
        data: Seq<u16>,
    )
        requires
            0 <= i <= words <= data.len(),
            self.words_come_from(flash, offset, self.place_in_bank(bank, offset), i, words, word),
        ensures
            ({
                let place = self.place_in_bank(bank, offset);
                let (_, r, out) = self.read_words(offset, place, i, words, word, data);
                r is Ok ==> forall|j: int|
                    i <= j < words ==> #[trigger] out[j] == self.hw.nvm_word(flash, bank, offset + j)
            }),
        decreases words - i,
    {
        broadcast use Run::law_read_flash_data_keeps_hw;

        if i < words {
            let place = self.place_in_bank(bank, offset);
            match self.hw.pending_word(offset + i) {
                Some(v) => {
                    let next = data.update(i, v);
                    self.lemma_words_are_nvm_words(flash, offset, bank, i + 1, words, word, next);
                    self.lemma_read_words(offset, place, i + 1, words, word, next);
                },
                None => {
                    let (s, r, w) = self.read_flash_word((place + i) as u32, word);
                    let next = data.update(i, w);
                    if r is Ok {
                        s.lemma_words_are_nvm_words(flash, offset, bank, i + 1, words, w, next);
                        s.lemma_read_words(offset, place, i + 1, words, w, next);
                    }
                },
            }
        }
    }
}

/// A read by words gives the words of the NVM: the pending ones, and those that
/// the valid bank in flash holds.
pub proof fn law_words_are_nvm_words(
    run: Run,
    flash: spec_fn(int) -> u16,
    offset: u16,
    words: u16,
    data: Seq<u16>,
)
    requires
        words <= data.len(),
        run.acquire_keeps_nvm(),
        run.nvm_read_from(flash, offset, words),
        run.read_nvm_by_word(offset, words, data).1 is Ok,
    ensures
        forall|j: int|
            0 <= j < words ==> #[trigger] run.read_nvm_by_word(offset, words, data).2[j]
                == run.hw.nvm_word(flash, run.bank_read(), offset + j),
{
    reveal(Run::read_nvm_by_word);
    reveal(Run::op_nvm_release_and);
    let (s, _) = run.op_nvm_acquire();
    law_detect_bank(s);
    let (s, _, _) = s.detect_bank();
    s.lemma_words_are_nvm_words(flash, offset, run.bank_read(), 0, words as int, 0, data);
}

/// A read by doublewords gives the words of the NVM too: the pending ones, and
/// halves of the doublewords that the valid bank in flash holds.
pub proof fn law_halves_are_nvm_words(
    run: Run,
    flash: spec_fn(int) -> u16,
    offset: u16,
    words: u16,
    data: Seq<u16>,
)
    requires
        words <= data.len(),
        run.acquire_keeps_nvm(),
        run.nvm_read_by_dword_from(flash, offset, words),
        run.read_nvm_by_dword(offset, words, data).1 is Ok,
    ensures
        forall|j: int|
            0 <= j < words ==> #[trigger] run.read_nvm_by_dword(offset, words, data).2[j]
                == run.hw.nvm_word(flash, run.bank_read(), offset + j),
{
    reveal(Run::read_nvm_by_dword);
    reveal(Run::op_nvm_release_and);
    let (s, _) = run.op_nvm_acquire();
    law_detect_bank(s);
    let (s, r, _) = s.detect_bank();
    s.lemma_pairs_are_nvm_words(flash, offset, run.bank_read(), 0, words as int, 0, data);
}

/// Reading words at once gives what reading each of them by itself gives, where
/// the flash holds the same, the same words are pending and the same bank is
/// valid: `singles` are the runs from which the words are read one by one,
/// each into what `cells` holds.
pub proof fn law_words_at_once_or_singly(
    run: Run,
    singles: Seq<Run>,
    flash: spec_fn(int) -> u16,
    offset: u16,
    words: u16,
    data: Seq<u16>,
    cells: Seq<u16>,
)
    requires
        words <= data.len(),
        run.acquire_keeps_nvm(),
        run.nvm_read_from(flash, offset, words),
        run.read_nvm_by_word(offset, words, data).1 is Ok,
        singles.len() == words && cells.len() == words,
        forall|j: int|
            #![trigger singles[j]]
            0 <= j < words ==> {
                &&& singles[j].same_nvm(run)
                &&& singles[j].nvm_read_from(flash, (offset + j) as u16, 1)
                &&& singles[j].read_nvm_by_word((offset + j) as u16, 1, seq![cells[j]]).1 is Ok
            },
    ensures
        forall|j: int|
            0 <= j < words ==> #[trigger] run.read_nvm_by_word(offset, words, data).2[j]
                == singles[j].read_nvm_by_word((offset + j) as u16, 1, seq![cells[j]]).2[0],
{
    law_words_are_nvm_words(run, flash, offset, words, data);
    reveal(Run::read_nvm_by_word);
    assert forall|j: int| 0 <= j < words implies #[trigger] run.read_nvm_by_word(
        offset,
        words,
        data,
    ).2[j] == singles[j].read_nvm_by_word((offset + j) as u16, 1, seq![cells[j]]).2[0] by {
        law_words_are_nvm_words(singles[j], flash, (offset + j) as u16, 1, seq![cells[j]]);
    }
}

/// The same of reads by doublewords.
pub proof fn law_halves_at_once_or_singly(
    run: Run,
    singles: Seq<Run>,
    flash: spec_fn(int) -> u16,
    offset: u16,
    words: u16,
    data: Seq<u16>,
    cells: Seq<u16>,
)
    requires
        words <= data.len(),
        run.acquire_keeps_nvm(),
        run.nvm_read_by_dword_from(flash, offset, words),
        run.read_nvm_by_dword(offset, words, data).1 is Ok,
        singles.len() == words && cells.len() == words,
        forall|j: int|
            #![trigger singles[j]]
            0 <= j < words ==> {
                &&& singles[j].same_nvm(run)
                &&& singles[j].nvm_read_by_dword_from(flash, (offset + j) as u16, 1)
                &&& singles[j].read_nvm_by_dword((offset + j) as u16, 1, seq![cells[j]]).1 is Ok
            },
    ensures
        forall|j: int|
            0 <= j < words ==> #[trigger] run.read_nvm_by_dword(offset, words, data).2[j]
                == singles[j].read_nvm_by_dword((offset + j) as u16, 1, seq![cells[j]]).2[0],
{
    law_halves_are_nvm_words(run, flash, offset, words, data);
    reveal(Run::read_nvm_by_dword);
    assert forall|j: int| 0 <= j < words implies #[trigger] run.read_nvm_by_dword(
        offset,
        words,
        data,
    ).2[j] == singles[j].read_nvm_by_dword((offset + j) as u16, 1, seq![cells[j]]).2[0] by {
        law_halves_are_nvm_words(singles[j], flash, (offset + j) as u16, 1, seq![cells[j]]);
    }
}

/// Once the NVM is initialized no word is pending, and the operations are
/// those of the MAC family; only flash registers that are not mapped keep it
/// from being initialized.
pub proof fn law_init_nvm(run: Run, offset: int)
    requires
        0 <= offset < 2048,
    ensures
        run.init_nvm().1 is Err <==> !run.since(MacType::Mac_pch_spt) && run.hw.flash_address == 0,
        run.init_nvm().1 is Ok ==> {
            let hw = run.init_nvm().0.hw;
            &&& hw.pending_word(offset) is None
            &&& hw.nvm.word_size == 2048
            &&& hw.nvm.ops.read == Some(
                if run.since(MacType::Mac_pch_spt) {
                    Func::ReadNvmSpt
                } else {
                    Func::ReadNvmIch8lan
                },
            )
        },
{
    broadcast use group_continues;

    reveal(Run::init_nvm);
    assert(blank_shadow_ram()@[offset] == ShadowRam { modified: false, value: 0xFFFF });
}

/// LED settings that were read are never all zeros or all ones.
pub proof fn law_led_settings_valid(run: Run, data: u16)
    requires
        run.led_settings(data).1 is Ok,
    ensures
        run.led_settings(data).2 != ID_LED_RESERVED_0000,
        run.led_settings(data).2 != ID_LED_RESERVED_FFFF,
{
    reveal(Run::led_settings);
}

/// Acquires the right to operate on the NVM, which the context lock confers.
pub fn acquire_nvm_ich8lan(adapter: &mut Adapter) -> (res: AdResult)
    requires
        old(adapter).wf(),
    ensures
        final(adapter).wf(),
        (final(adapter)@, res) == (old(adapter)@.act(Action::AssertCtxLockHeld), Ok::<(), Error>(())),
{
    adapter.assert_ctx_lock_held();
    Ok(())
}

/// Releases the right to operate on the NVM.
pub fn release_nvm_ich8lan(adapter: &mut Adapter)
    requires
        old(adapter).wf(),
    ensures
        final(adapter).wf(),
        final(adapter)@ == old(adapter)@.act(Action::AssertCtxLockHeld),
{
    adapter.assert_ctx_lock_held();
}

fn op_nvm_acquire(adapter: &mut Adapter) -> (res: AdResult)
    requires
        old(adapter).wf(),
    ensures
        final(adapter).wf(),
        (final(adapter)@, res) == old(adapter)@.op_nvm_acquire(),
{
    reveal(Run::op_nvm_acquire);
    match adapter.hw.nvm.ops.acquire {
        None => Err(Error::NoFunction),
        Some(Func::AcquireNvmIch8lan) => acquire_nvm_ich8lan(adapter),
        Some(f) => adapter.invoke(Call::Op(f)),
    }
}

fn op_nvm_release_and(adapter: &mut Adapter, res: AdResult) -> (out: AdResult)
    requires
        old(adapter).wf(),
    ensures
        final(adapter).wf(),
        (final(adapter)@, out) == old(adapter)@.op_nvm_release_and(res),
{
    reveal(Run::op_nvm_release_and);
    match adapter.hw.nvm.ops.release {
        None => Err(Error::NoFunction),
        Some(Func::ReleaseNvmIch8lan) => {
            release_nvm_ich8lan(adapter);
            res
        },
        Some(f) => {
            let _ = adapter.call(Call::Op(f));
            res
        },
    }
}

fn detect_bank_by_dword(adapter: &mut Adapter, bank: &mut u32) -> (res: AdResult)
    requires
        old(adapter).wf(),
    ensures
        final(adapter).wf(),
        (final(adapter)@, res, *final(bank)) == old(adapter)@.detect_bank_by_dword(),
{
    reveal(Run::detect_bank_by_dword);
    let bank1_offset: u32 = adapter.hw.nvm.flash_bank_size;
    let mut nvm_dword: u32 = 0;
    *bank = 0;
    if let Err(e) = read_flash_dword_ich8lan(adapter, E1000_ICH_NVM_SIG_WORD, &mut nvm_dword) {
        return Err(e);
    }
    let sig_byte: u8 = ((nvm_dword & 0xFF00) >> 8) as u8;
    if sig_byte & E1000_ICH_NVM_VALID_SIG_MASK == E1000_ICH_NVM_SIG_VALUE {
        return Ok(());
    }
    if let Err(e) = read_flash_dword_ich8lan(
        adapter,
        E1000_ICH_NVM_SIG_WORD + bank1_offset,
        &mut nvm_dword,
    ) {
        return Err(e);
    }
    let sig_byte: u8 = ((nvm_dword & 0xFF00) >> 8) as u8;
    if sig_byte & E1000_ICH_NVM_VALID_SIG_MASK == E1000_ICH_NVM_SIG_VALUE {
        *bank = 1;
        return Ok(());
    }
    Err(Error::NoValidNvmBank)
}

fn detect_bank_by_byte(adapter: &mut Adapter, bank: &mut u32) -> (res: AdResult)
    requires
        old(adapter).wf(),
    ensures
        final(adapter).wf(),
        (final(adapter)@, res, *final(bank)) == old(adapter)@.detect_bank_by_byte(),
{
    reveal(Run::detect_bank_by_byte);
    let bank1_offset: u32 = adapter.hw.nvm.flash_bank_size * 2;
    let act_offset: u32 = E1000_ICH_NVM_SIG_WORD * 2 + 1;
    let mut sig_byte: u8 = 0;
    *bank = 0;
    if let Err(e) = read_flash_byte_ich8lan(adapter, act_offset, &mut sig_byte) {
        return Err(e);
    }
    if sig_byte & E1000_ICH_NVM_VALID_SIG_MASK == E1000_ICH_NVM_SIG_VALUE {
        return Ok(());
    }
    if let Err(e) = read_flash_byte_ich8lan(adapter, act_offset + bank1_offset, &mut sig_byte) {
        return Err(e);
    }
    if sig_byte & E1000_ICH_NVM_VALID_SIG_MASK == E1000_ICH_NVM_SIG_VALUE {
        *bank = 1;
        return Ok(());
    }
    Err(Error::NoValidNvmBank)
}

/// Finds out which bank is valid, 0 or 1. Bits 15 and 14 of word 0x13 of a
/// valid bank are 1 and 0. On an error the bank is 0.
pub fn valid_nvm_bank_detect_ich8lan(adapter: &mut Adapter, bank: &mut u32) -> (res: AdResult)
    requires
        old(adapter).wf(),
    ensures
        final(adapter).wf(),
        (final(adapter)@, res, *final(bank)) == old(adapter)@.detect_bank(),
{
    reveal(Run::detect_bank);
    if adapter.is_mac(MacType::Mac_pch_spt) || adapter.is_mac(MacType::Mac_pch_cnp) {
        return detect_bank_by_dword(adapter, bank);
    }
    if adapter.is_mac(MacType::Mac_ich8lan) || adapter.is_mac(MacType::Mac_ich9lan) {
        let eecd = adapter.read_register(E1000_EECD);
        if eecd & E1000_EECD_SEC1VAL_VALID_MASK == E1000_EECD_SEC1VAL_VALID_MASK {
            if eecd & E1000_EECD_SEC1VAL != 0 {
                *bank = 1;
            } else {
                *bank = 0;
            }
            return Ok(());
        }
    }
    detect_bank_by_byte(adapter, bank)
}

fn read_words(
    adapter: &mut Adapter,
    offset: u16,
    act_offset: u32,
    words: u16,
    data: &mut [u16],
) -> (res: AdResult)
    requires
        old(adapter).wf(),
        offset + words <= 2048,
        act_offset <= 0x8000_0000,
        old(data)@.len() >= words,
    ensures
        final(adapter).wf(),
        (final(adapter)@, res, final(data)@) == old(adapter)@.read_words(
            offset,
            act_offset as int,
            0,
            words as int,
            0,
            old(data)@,
        ),
{
    let mut word: u16 = 0;
    let mut i: usize = 0;
    while i < words as usize
        invariant
            adapter.wf(),
            i <= words,
            offset + words <= 2048,
            act_offset <= 0x8000_0000,
            data@.len() >= words,
            adapter@.read_words(
                offset,
                act_offset as int,
                i as int,
                words as int,
                word,
                data@,
            ) == old(adapter)@.read_words(
                offset,
                act_offset as int,
                0,
                words as int,
                0,
                old(data)@,
            ),
        decreases words - i,
    {
        let sr: ShadowRam = adapter.hw.dev_spec.shadow_ram[offset as usize + i];
        if sr.modified {
            data[i] = sr.value;
        } else {
            if let Err(e) = read_flash_word_ich8lan(adapter, act_offset + i as u32, &mut word) {
                return Err(e);
            }
            data[i] = word;
        }
        i = i + 1;
    }
    Ok(())
}

/// Reads words of the NVM at word `offset`, by word cycles.
pub fn read_nvm_ich8lan(adapter: &mut Adapter, offset: u16, words: u16, data: &mut [u16]) -> (res:
    AdResult)
    requires
        old(adapter).wf(),
        old(adapter)@.nvm_in_bounds(offset, words) ==> old(data)@.len() >= words,
    ensures
        final(adapter).wf(),
        (final(adapter)@, res, final(data)@) == old(adapter)@.read_nvm_by_word(
            offset,
            words,
            old(data)@,
        ),
{
    reveal(Run::read_nvm_by_word);
    if offset >= adapter.hw.nvm.word_size || words > adapter.hw.nvm.word_size - offset || words
        == 0 {
        return Err(Error::NvmParameter);
    }
    if let Err(e) = op_nvm_acquire(adapter) {
        return Err(e);
    }
    let mut bank: u32 = 0;
    if valid_nvm_bank_detect_ich8lan(adapter, &mut bank).is_err() {
        bank = 0;
    }
    let mut act_offset: u32 = if bank != 0 {
        adapter.hw.nvm.flash_bank_size
    } else {
        0
    };
    act_offset = act_offset + offset as u32;
    let res = read_words(adapter, offset, act_offset, words, data);
    op_nvm_release_and(adapter, res)
}

fn read_last_word(
    adapter: &mut Adapter,
    offset: u16,
    act_offset: u32,
    i: usize,
    dword: u32,
    data: &mut [u16],
) -> (res: AdResult)
    requires
        old(adapter).wf(),
        offset + i < 2048,
        act_offset <= 0x8000_0000,
        i < old(data)@.len(),
    ensures
        final(adapter).wf(),
        (final(adapter)@, res, final(data)@) == old(adapter)@.read_last_word(
            offset,
            act_offset as int,
            i as int,
            dword,
            old(data)@,
        ),
{
    let sr: ShadowRam = adapter.hw.dev_spec.shadow_ram[offset as usize + i];
    if sr.modified {
        data[i] = sr.value;
        return Ok(());
    }
    let mut dword: u32 = dword;
    let at: u32 = act_offset + i as u32;
    if let Err(e) = read_flash_dword_ich8lan(adapter, at - at % 2, &mut dword) {
        return Err(e);
    }
    if at % 2 == 0 {
        data[i] = (dword & 0xFFFF) as u16;
    } else {
        data[i] = ((dword >> 16) & 0xFFFF) as u16;
    }
    Ok(())
}

fn read_word_pairs(
    adapter: &mut Adapter,
    offset: u16,
    act_offset: u32,
    words: u16,
    data: &mut [u16],
) -> (res: AdResult)
    requires
        old(adapter).wf(),
        offset + words <= 2048,
        act_offset <= 0x8000_0000,
        old(data)@.len() >= words,
    ensures
        final(adapter).wf(),
        (final(adapter)@, res, final(data)@) == old(adapter)@.read_word_pairs(
            offset,
            act_offset as int,
            0,
            words as int,
            0,
            old(data)@,
        ),
{
    let mut dword: u32 = 0;
    let mut i: usize = 0;
    while i < words as usize
        invariant
            adapter.wf(),
            i <= words,
            offset + words <= 2048,
            act_offset <= 0x8000_0000,
            data@.len() >= words,
            adapter@.read_word_pairs(
                offset,
                act_offset as int,
                i as int,
                words as int,
                dword,
                data@,
            ) == old(adapter)@.read_word_pairs(
                offset,
                act_offset as int,
                0,
                words as int,
                0,
                old(data)@,
            ),
        decreases words - i,
    {
        if words as usize - i == 1 {
            return read_last_word(adapter, offset, act_offset, i, dword, data);
        }
        let at: usize = offset as usize + i;
        if !adapter.hw.dev_spec.shadow_ram[at].modified || !adapter.hw.dev_spec.shadow_ram[at
            + 1].modified {
            if let Err(e) = read_flash_dword_ich8lan(adapter, act_offset + i as u32, &mut dword) {
                return Err(e);
            }
        }
        let first: ShadowRam = adapter.hw.dev_spec.shadow_ram[at];
        if first.modified {
            data[i] = first.value;
        } else {
            data[i] = (dword & 0xFFFF) as u16;
        }
        let second: ShadowRam = adapter.hw.dev_spec.shadow_ram[at + 1];
        if second.modified {
            data[i + 1] = second.value;
        } else {
            data[i + 1] = ((dword >> 16) & 0xFFFF) as u16;
        }
        i = i + 2;
    }
    Ok(())
}

/// Reads words of the NVM at word `offset`, by doubleword cycles.
pub fn read_nvm_spt(adapter: &mut Adapter, offset: u16, words: u16, data: &mut [u16]) -> (res:
    AdResult)
    requires
        old(adapter).wf(),
        old(adapter)@.nvm_in_bounds(offset, words) ==> old(data)@.len() >= words,
    ensures
        final(adapter).wf(),
        (final(adapter)@, res, final(data)@) == old(adapter)@.read_nvm_by_dword(
            offset,
            words,
            old(data)@,
        ),
{
    reveal(Run::read_nvm_by_dword);
    if offset >= adapter.hw.nvm.word_size || words > adapter.hw.nvm.word_size - offset || words
        == 0 {
        return Err(Error::NvmParameters);
    }
    if let Err(e) = op_nvm_acquire(adapter) {
        return Err(e);
    }
    let mut bank: u32 = 0;
    if let Err(e) = valid_nvm_bank_detect_ich8lan(adapter, &mut bank) {
        return Err(e);
    }
    let mut act_offset: u32 = if bank > 0 {
        adapter.hw.nvm.flash_bank_size
    } else {
        0
    };
    act_offset = act_offset + offset as u32;
    let res = read_word_pairs(adapter, offset, act_offset, words, data);
    op_nvm_release_and(adapter, res)
}

/// Writes words to the NVM; not implemented.
pub fn write_nvm_ich8lan(adapter: &mut Adapter, offset: u16, words: u16, data: &[u16]) -> (res:
    AdResult)
    requires
        old(adapter).wf(),
    ensures
        final(adapter).wf(),
        (final(adapter)@, res) == old(adapter)@.incomplete(Feature::WriteNvmIch8lan),
{
    adapter.incomplete(Feature::WriteNvmIch8lan)
}

/// Updates the checksum and commits the shadow RAM, from Sunrise Point on;
/// not implemented.
pub fn update_nvm_checksum_spt(adapter: &mut Adapter) -> (res: AdResult)
    requires
        old(adapter).wf(),
    ensures
        final(adapter).wf(),
        (final(adapter)@, res) == old(adapter)@.incomplete(Feature::UpdateNvmChecksumSpt),
{
    adapter.incomplete(Feature::UpdateNvmChecksumSpt)
}

/// Updates the checksum and commits the shadow RAM, before Sunrise Point; not
/// implemented.
pub fn update_nvm_checksum_ich8lan(adapter: &mut Adapter) -> (res: AdResult)
    requires
        old(adapter).wf(),
    ensures
        final(adapter).wf(),
        (final(adapter)@, res) == old(adapter)@.incomplete(Feature::UpdateNvmChecksumIch8lan),
{
    adapter.incomplete(Feature::UpdateNvmChecksumIch8lan)
}

fn op_nvm_update(adapter: &mut Adapter) -> (res: AdResult)
    requires
        old(adapter).wf(),
    ensures
        final(adapter).wf(),
        (final(adapter)@, res) == old(adapter)@.op_nvm_update(),
{
    reveal(Run::op_nvm_update);
    match adapter.hw.nvm.ops.update {
        None => Err(Error::NoFunction),
        Some(Func::UpdateNvmChecksumSpt) => update_nvm_checksum_spt(adapter),
        Some(Func::UpdateNvmChecksumIch8lan) => update_nvm_checksum_ich8lan(adapter),
        Some(f) => adapter.invoke(Call::Op(f)),
    }
}

/// Validates the checksum. If the NVM says that its checksum was not
/// calculated, as OEM software leaves it, that is made good first.
pub fn validate_nvm_checksum_ich8lan(adapter: &mut Adapter) -> (res: AdResult)
    requires
        old(adapter).wf(),
    ensures
        final(adapter).wf(),
        (final(adapter)@, res) == old(adapter)@.validate_nvm(),
{
    reveal(Run::validate_nvm);
    let (word, valid_csum_mask): (u16, u16) = if adapter.is_mac(MacType::Mac_pch_lpt)
        || adapter.is_mac(MacType::Mac_pch_spt) || adapter.is_mac(MacType::Mac_pch_cnp) {
        (NVM_COMPAT, NVM_COMPAT_VALID_CSUM)
    } else {
        (NVM_FUTURE_INIT_WORD1, NVM_FUTURE_INIT_WORD1_VALID_CSUM)
    };
    let mut data: u16 = 0;
    if let Err(e) = adapter.nvm_read_word(word, &mut data) {
        return Err(e);
    }
    if data & valid_csum_mask == 0 {
        if let Err(e) = adapter.invoke(Call::NvmWriteWord(word, data | valid_csum_mask)) {
            return Err(e);
        }
        if let Err(e) = op_nvm_update(adapter) {
            return Err(e);
        }
    }
    adapter.invoke(Call::ValidateNvmChecksumGeneric)
}

/// Reads the default LED settings into the first word of `data`; settings of
/// all zeros or all ones are replaced by valid ones.
pub fn valid_led_default_ich8lan(adapter: &mut Adapter, data: &mut [u16]) -> (res: AdResult)
    requires
        old(adapter).wf(),
        old(data)@.len() >= 1,
    ensures
        final(adapter).wf(),
        (final(adapter)@, res) == (
            old(adapter)@.led_settings(old(data)@[0]).0,
            old(adapter)@.led_settings(old(data)@[0]).1,
        ),
        final(data)@ == old(data)@.update(0, old(adapter)@.led_settings(old(data)@[0]).2),
{
    reveal(Run::led_settings);
    let mut word: u16 = data[0];
    let res = adapter.nvm_read_word(NVM_ID_LED_SETTINGS, &mut word);
    data[0] = word;
    if let Err(e) = res {
        return Err(e);
    }
    if data[0] == ID_LED_RESERVED_0000 || data[0] == ID_LED_RESERVED_FFFF {
        data[0] = ID_LED_DEFAULT_ICH8LAN;
    }
    Ok(())
}

/// Reads the default LED settings by way of the table of operations.
pub(crate) fn op_led_settings(adapter: &mut Adapter, data: &mut u16) -> (res: AdResult)
    requires
        old(adapter).wf(),
    ensures
        final(adapter).wf(),
        (final(adapter)@, res, *final(data)) == old(adapter)@.op_led_settings(*old(data)),
{
    reveal(Run::op_led_settings);
    match adapter.hw.nvm.ops.valid_led_default {
        None => Err(Error::NoFunction),
        Some(Func::ValidLedDefaultIch8lan) => {
            let mut word: [u16; 1] = [*data];
            let res = valid_led_default_ich8lan(adapter, &mut word);
            *data = word[0];
            res
        },
        Some(f) => {
            let call = Call::OpLedDefault(f, *data);
            adapter.fetch(call, data)
        },
    }
}

fn set_nvm_params(adapter: &mut Adapter, base: u32, bank_size: u32, flash_address: u64)
    requires
        old(adapter).wf(),
        base <= 0xFF00_0000,
        bank_size <= 0x4000_0000,
    ensures
        final(adapter).wf(),
        final(adapter)@ == old(adapter)@.with_hw(
            old(adapter).hw.with_nvm_params(base, bank_size, flash_address),
        ),
{
    let new: bool = adapter.mac_since(MacType::Mac_pch_spt);
    adapter.hw.flash_address = flash_address;
    adapter.hw.dev_spec.shadow_ram = [ShadowRam { modified: false, value: 0xFFFF };2048];
    adapter.hw.nvm = NvmInfo {
        nvm_type: NvmType::FlashSw,
        word_size: E1000_SHADOW_RAM_WORDS,
        flash_base_addr: base,
        flash_bank_size: bank_size,
        ops: NvmOps {
            init_params: adapter.hw.nvm.ops.init_params,
            acquire: Some(Func::AcquireNvmIch8lan),
            release: Some(Func::ReleaseNvmIch8lan),
            read: Some(
                if new {
                    Func::ReadNvmSpt
                } else {
                    Func::ReadNvmIch8lan
                },
            ),
            update: Some(
                if new {
                    Func::UpdateNvmChecksumSpt
                } else {
                    Func::UpdateNvmChecksumIch8lan
                },
            ),
            valid_led_default: Some(Func::ValidLedDefaultIch8lan),
            validate: Some(Func::ValidateNvmChecksumIch8lan),
            write: Some(Func::WriteNvmIch8lan),
        },
    };
}

/// Initializes the NVM parameters: its size and place, an empty shadow RAM,
/// and the table of operations.
pub fn init_nvm_params_ich8lan(adapter: &mut Adapter) -> (res: AdResult)
    requires
        old(adapter).wf(),
    ensures
        final(adapter).wf(),
        (final(adapter)@, res) == old(adapter)@.init_nvm(),
{
    reveal(Run::init_nvm);
    if adapter.mac_since(MacType::Mac_pch_spt) {
        let address: u64 = adapter.hw.hw_addr + E1000_FLASH_BASE_ADDR;
        let strap = adapter.read_register(E1000_STRAP);
        proof {
            lemma_nvm_sizes(strap);
        }
        let nvm_size: u32 = (((strap >> 1) & 0x1F) + 1) * NVM_SIZE_MULTIPLIER;
        set_nvm_params(adapter, 0, nvm_size / 4, address);
        return Ok(());
    }
    let address: u64 = adapter.hw.flash_address;
    if address == 0 {
        adapter.hw.nvm.nvm_type = NvmType::FlashSw;
        return Err(Error::FlashNotMapped);
    }
    let gfpreg = adapter.read_flash_register(ICH_FLASH_GFPREG);
    proof {
        lemma_nvm_sizes(gfpreg);
    }
    let sector_base_addr: u32 = gfpreg & FLASH_GFPREG_BASE_MASK;
    // The last sector is a part of the region.
    let sector_end_addr: u32 = ((gfpreg >> 16) & FLASH_GFPREG_BASE_MASK) + 1;
    // Half of the region is one bank, and a word is two bytes.
    let bank_size: u32 = (sector_end_addr.wrapping_sub(sector_base_addr)
        << FLASH_SECTOR_ADDR_SHIFT) / 4;
    set_nvm_params(adapter, sector_base_addr << FLASH_SECTOR_ADDR_SHIFT, bank_size, address);
    Ok(())
}

} // verus!
