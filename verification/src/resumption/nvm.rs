//! Resuming: the NVM.

use vstd::prelude::*;
use crate::error::AdResult;
use crate::io::{Reply, Run};
use crate::nvm::{high_word, low_word};
use crate::resume::{agree, agree_3, group_resumes};

verus! {

impl Run {
    /// `led_settings` only adds to a run, and resumes with more answers.
    pub broadcast proof fn law_led_settings_resumes(self, data: u16)
        ensures
            (#[trigger] self.led_settings(data)).0.continues(self),
            forall|more: Seq<Reply>|
                agree_3(
                    #[trigger] self.fed(more).led_settings(data),
                    self.led_settings(data),
                    more,
                ),
    {
        broadcast use group_resumes;

        self.lemma_start();
        reveal(Run::led_settings);
    }

    /// `op_led_settings` only adds to a run, and resumes with more answers.
    pub broadcast proof fn law_op_led_settings_resumes(self, data: u16)
        ensures
            (#[trigger] self.op_led_settings(data)).0.continues(self),
            forall|more: Seq<Reply>|
                agree_3(
                    #[trigger] self.fed(more).op_led_settings(data),
                    self.op_led_settings(data),
                    more,
                ),
    {
        broadcast use {group_resumes, Run::law_led_settings_resumes};

        self.lemma_start();
        reveal(Run::op_led_settings);
    }

    /// `op_nvm_acquire` only adds to a run, and resumes with more answers.
    pub broadcast proof fn law_op_nvm_acquire_resumes(self)
        ensures
            (#[trigger] self.op_nvm_acquire()).0.continues(self),
            forall|more: Seq<Reply>|
                agree(#[trigger] self.fed(more).op_nvm_acquire(), self.op_nvm_acquire(), more),
    {
        broadcast use group_resumes;

        self.lemma_start();
        reveal(Run::op_nvm_acquire);
    }

    /// `op_nvm_release_and` only adds to a run, and resumes with more answers.
    pub broadcast proof fn law_op_nvm_release_and_resumes(self, res: AdResult)
        ensures
            (#[trigger] self.op_nvm_release_and(res)).0.continues(self),
            forall|more: Seq<Reply>|
                agree(
                    #[trigger] self.fed(more).op_nvm_release_and(res),
                    self.op_nvm_release_and(res),
                    more,
                ),
    {
        broadcast use group_resumes;

        self.lemma_start();
        reveal(Run::op_nvm_release_and);
    }

    /// `op_nvm_update` only adds to a run, and resumes with more answers.
    pub broadcast proof fn law_op_nvm_update_resumes(self)
        ensures
            (#[trigger] self.op_nvm_update()).0.continues(self),
            forall|more: Seq<Reply>|
                agree(#[trigger] self.fed(more).op_nvm_update(), self.op_nvm_update(), more),
    {
        broadcast use group_resumes;

        self.lemma_start();
        reveal(Run::op_nvm_update);
    }

    /// `detect_bank_by_dword` only adds to a run, and resumes with more answers.
    pub broadcast proof fn law_detect_bank_by_dword_resumes(self)
        ensures
            (#[trigger] self.detect_bank_by_dword()).0.continues(self),
            forall|more: Seq<Reply>|
                agree_3(
                    #[trigger] self.fed(more).detect_bank_by_dword(),
                    self.detect_bank_by_dword(),
                    more,
                ),
    {
        broadcast use {group_resumes, Run::law_read_flash_dword_resumes};

        self.lemma_start();
        reveal(Run::detect_bank_by_dword);
    }

    /// `detect_bank_by_byte` only adds to a run, and resumes with more answers.
    pub broadcast proof fn law_detect_bank_by_byte_resumes(self)
        ensures
            (#[trigger] self.detect_bank_by_byte()).0.continues(self),
            forall|more: Seq<Reply>|
                agree_3(
                    #[trigger] self.fed(more).detect_bank_by_byte(),
                    self.detect_bank_by_byte(),
                    more,
                ),
    {
        broadcast use {group_resumes, Run::law_read_flash_byte_resumes};

        self.lemma_start();
        reveal(Run::detect_bank_by_byte);
    }

    /// `detect_bank` only adds to a run, and resumes with more answers.
    pub broadcast proof fn law_detect_bank_resumes(self)
        ensures
            (#[trigger] self.detect_bank()).0.continues(self),
            forall|more: Seq<Reply>|
                agree_3(#[trigger] self.fed(more).detect_bank(), self.detect_bank(), more),
    {
        broadcast use {
            group_resumes,
            Run::law_detect_bank_by_dword_resumes,
            Run::law_detect_bank_by_byte_resumes,
        };

        self.lemma_start();
        reveal(Run::detect_bank);
    }

    proof fn lemma_read_words_continues(
        self,
        offset: u16,
        place: int,
        i: int,
        words: int,
        word: u16,
        data: Seq<u16>,
    )
        ensures
            self.read_words(offset, place, i, words, word, data).0.continues(self),
        decreases words - i,
    {
        broadcast use {group_resumes, Run::law_read_flash_word_resumes};

        self.lemma_start();
        if i < words {
            if let Some(v) = self.hw.pending_word(offset + i) {
                self.lemma_read_words_continues(
                    offset,
                    place,
                    i + 1,
                    words,
                    word,
                    data.update(i, v),
                );
            }
            let (s, _, w) = self.read_flash_word((place + i) as u32, word);
            s.lemma_read_words_continues(offset, place, i + 1, words, w, data.update(i, w));
        }
    }

    /// `read_words` only adds to a run, and resumes with more answers.
    pub broadcast proof fn law_read_words_resumes(
        self,
        offset: u16,
        place: int,
        i: int,
        words: int,
        word: u16,
        data: Seq<u16>,
    )
        ensures
            (#[trigger] self.read_words(offset, place, i, words, word, data)).0.continues(self),
            forall|more: Seq<Reply>|
                agree_3(
                    #[trigger] self.fed(more).read_words(offset, place, i, words, word, data),
                    self.read_words(offset, place, i, words, word, data),
                    more,
                ),
        decreases words - i,
    {
        broadcast use {group_resumes, Run::law_read_flash_word_resumes};

        self.lemma_start();
        self.lemma_read_words_continues(offset, place, i, words, word, data);
        assert forall|more: Seq<Reply>|
            agree_3(
                #[trigger] self.fed(more).read_words(offset, place, i, words, word, data),
                self.read_words(offset, place, i, words, word, data),
                more,
            ) by {
            if i < words {
                let fed = self.fed(more);
                if let Some(v) = self.hw.pending_word(offset + i) {
                    self.law_read_words_resumes(
                        offset,
                        place,
                        i + 1,
                        words,
                        word,
                        data.update(i, v),
                    );
                }
                let (s, _, w) = self.read_flash_word((place + i) as u32, word);
                s.law_read_words_resumes(offset, place, i + 1, words, w, data.update(i, w));
                if let Some(v) = fed.hw.pending_word(offset + i) {
                    fed.lemma_read_words_continues(
                        offset,
                        place,
                        i + 1,
                        words,
                        word,
                        data.update(i, v),
                    );
                }
                let (s, _, w) = fed.read_flash_word((place + i) as u32, word);
                s.lemma_read_words_continues(offset, place, i + 1, words, w, data.update(i, w));
            }
        }
    }

    proof fn lemma_read_word_pairs_continues(
        self,
        offset: u16,
        place: int,
        i: int,
        words: int,
        dword: u32,
        data: Seq<u16>,
    )
        ensures
            self.read_word_pairs(offset, place, i, words, dword, data).0.continues(self),
        decreases words - i,
    {
        broadcast use {group_resumes, Run::law_read_flash_dword_resumes};

        self.lemma_start();
        if i + 1 < words {
            let (s, _, d) = self.read_pair(offset, place, i, dword);
            let first = match s.hw.pending_word(offset + i) {
                Some(v) => v,
                None => low_word(d),
            };
            let second = match s.hw.pending_word(offset + i + 1) {
                Some(v) => v,
                None => high_word(d),
            };
            let out = data.update(i, first).update(i + 1, second);
            s.lemma_read_word_pairs_continues(offset, place, i + 2, words, d, out);
        }
    }

    /// `read_word_pairs` only adds to a run, and resumes with more answers.
    pub broadcast proof fn law_read_word_pairs_resumes(
        self,
        offset: u16,
        place: int,
        i: int,
        words: int,
        dword: u32,
        data: Seq<u16>,
    )
        ensures
            (#[trigger] self.read_word_pairs(offset, place, i, words, dword, data)).0.continues(self),
            forall|more: Seq<Reply>|
                agree_3(
                    #[trigger] self.fed(more).read_word_pairs(offset, place, i, words, dword, data),
                    self.read_word_pairs(offset, place, i, words, dword, data),
                    more,
                ),
        decreases words - i,
    {
        broadcast use {group_resumes, Run::law_read_flash_dword_resumes};

        self.lemma_start();
        self.lemma_read_word_pairs_continues(offset, place, i, words, dword, data);
        assert forall|more: Seq<Reply>|
            agree_3(
                #[trigger] self.fed(more).read_word_pairs(offset, place, i, words, dword, data),
                self.read_word_pairs(offset, place, i, words, dword, data),
                more,
            ) by {
            if i + 1 < words {
                let fed = self.fed(more);
                let (s, _, d) = self.read_pair(offset, place, i, dword);
                let first = match s.hw.pending_word(offset + i) {
                    Some(v) => v,
                    None => low_word(d),
                };
                let second = match s.hw.pending_word(offset + i + 1) {
                    Some(v) => v,
                    None => high_word(d),
                };
                let out = data.update(i, first).update(i + 1, second);
                s.law_read_word_pairs_resumes(offset, place, i + 2, words, d, out);
                let (s, _, d) = fed.read_pair(offset, place, i, dword);
                let first = match s.hw.pending_word(offset + i) {
                    Some(v) => v,
                    None => low_word(d),
                };
                let second = match s.hw.pending_word(offset + i + 1) {
                    Some(v) => v,
                    None => high_word(d),
                };
                let out = data.update(i, first).update(i + 1, second);
                s.lemma_read_word_pairs_continues(offset, place, i + 2, words, d, out);
            }
        }
    }

    /// `read_nvm_by_dword` only adds to a run, and resumes with more answers.
    pub broadcast proof fn law_read_nvm_by_dword_resumes(
        self,
        offset: u16,
        words: u16,
        data: Seq<u16>,
    )
        ensures
            (#[trigger] self.read_nvm_by_dword(offset, words, data)).0.continues(self),
            forall|more: Seq<Reply>|
                agree_3(
                    #[trigger] self.fed(more).read_nvm_by_dword(offset, words, data),
                    self.read_nvm_by_dword(offset, words, data),
                    more,
                ),
    {
        broadcast use {
            group_resumes,
            Run::law_op_nvm_acquire_resumes,
            Run::law_detect_bank_resumes,
            Run::law_read_word_pairs_resumes,
            Run::law_op_nvm_release_and_resumes,
        };

        self.lemma_start();
        reveal(Run::read_nvm_by_dword);
    }

    /// `read_nvm_by_word` only adds to a run, and resumes with more answers.
    pub broadcast proof fn law_read_nvm_by_word_resumes(
        self,
        offset: u16,
        words: u16,
        data: Seq<u16>,
    )
        ensures
            (#[trigger] self.read_nvm_by_word(offset, words, data)).0.continues(self),
            forall|more: Seq<Reply>|
                agree_3(
                    #[trigger] self.fed(more).read_nvm_by_word(offset, words, data),
                    self.read_nvm_by_word(offset, words, data),
                    more,
                ),
    {
        broadcast use {
            group_resumes,
            Run::law_op_nvm_acquire_resumes,
            Run::law_detect_bank_resumes,
            Run::law_read_words_resumes,
            Run::law_op_nvm_release_and_resumes,
        };

        self.lemma_start();
        reveal(Run::read_nvm_by_word);
    }

    /// `validate_nvm` only adds to a run, and resumes with more answers.
    pub broadcast proof fn law_validate_nvm_resumes(self)
        ensures
            (#[trigger] self.validate_nvm()).0.continues(self),
            forall|more: Seq<Reply>|
                agree(#[trigger] self.fed(more).validate_nvm(), self.validate_nvm(), more),
    {
        broadcast use {group_resumes, Run::law_op_nvm_update_resumes};

        self.lemma_start();
        reveal(Run::validate_nvm);
    }

    /// `init_nvm` only adds to a run, and resumes with more answers.
    pub broadcast proof fn law_init_nvm_resumes(self)
        ensures
            (#[trigger] self.init_nvm()).0.continues(self),
            forall|more: Seq<Reply>|
                agree(#[trigger] self.fed(more).init_nvm(), self.init_nvm(), more),
    {
        broadcast use group_resumes;

        self.lemma_start();
        reveal(Run::init_nvm);
    }
}

} // verus!
