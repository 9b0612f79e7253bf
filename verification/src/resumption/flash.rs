//! Resuming: the flash controller.

use vstd::prelude::*;
use crate::consts::{ICH_FLASH_CYCLE_REPEAT_COUNT, ICH_FLASH_HSFSTS};
use crate::flash::Cycle;
use crate::io::{Reply, Run};
use crate::resume::{agree, agree_3, group_resumes};

verus! {

impl Run {
    /// `poll_flash_idle` only adds to a run, and resumes with more answers.
    pub broadcast proof fn law_poll_flash_idle_resumes(self, tries: int)
        ensures
            (#[trigger] self.poll_flash_idle(tries)).0.continues(self),
            forall|more: Seq<Reply>|
                agree(
                    #[trigger] self.fed(more).poll_flash_idle(tries),
                    self.poll_flash_idle(tries),
                    more,
                ),
        decreases tries,
    {
        broadcast use group_resumes;

        self.lemma_start();
        self.lemma_poll_flash_idle_continues(tries);
        assert forall|more: Seq<Reply>|
            agree(
                #[trigger] self.fed(more).poll_flash_idle(tries),
                self.poll_flash_idle(tries),
                more,
            ) by {
            if tries > 0 {
                let fed = self.fed(more);
                self.read_flash_register16(ICH_FLASH_HSFSTS).0.usec_delay(1).law_poll_flash_idle_resumes(
                    tries - 1,
                );
                fed.read_flash_register16(ICH_FLASH_HSFSTS).0.usec_delay(1).lemma_poll_flash_idle_continues(
                    tries - 1,
                );
            }
        }
    }

    /// `flash_cycle_init` only adds to a run, and resumes with more answers.
    pub broadcast proof fn law_flash_cycle_init_resumes(self)
        ensures
            (#[trigger] self.flash_cycle_init()).0.continues(self),
            forall|more: Seq<Reply>|
                agree(#[trigger] self.fed(more).flash_cycle_init(), self.flash_cycle_init(), more),
    {
        broadcast use {group_resumes, Run::law_poll_flash_idle_resumes};

        self.lemma_start();
        reveal(Run::flash_cycle_init);
    }

    /// `poll_flash_done` only adds to a run, and resumes with more answers.
    pub broadcast proof fn law_poll_flash_done_resumes(self, tries: int)
        ensures
            (#[trigger] self.poll_flash_done(tries)).0.continues(self),
            forall|more: Seq<Reply>|
                agree(
                    #[trigger] self.fed(more).poll_flash_done(tries),
                    self.poll_flash_done(tries),
                    more,
                ),
        decreases tries,
    {
        broadcast use group_resumes;

        self.lemma_start();
        self.lemma_poll_flash_done_continues(tries);
        assert forall|more: Seq<Reply>|
            agree(
                #[trigger] self.fed(more).poll_flash_done(tries),
                self.poll_flash_done(tries),
                more,
            ) by {
            if tries > 1 {
                let fed = self.fed(more);
                self.read_flash_register16(ICH_FLASH_HSFSTS).0.usec_delay(1).law_poll_flash_done_resumes(
                    tries - 1,
                );
                fed.read_flash_register16(ICH_FLASH_HSFSTS).0.usec_delay(1).lemma_poll_flash_done_continues(
                    tries - 1,
                );
            }
        }
    }

    /// `flash_cycle` only adds to a run, and resumes with more answers.
    pub broadcast proof fn law_flash_cycle_resumes(self, timeout: u32)
        ensures
            (#[trigger] self.flash_cycle(timeout)).0.continues(self),
            forall|more: Seq<Reply>|
                agree(
                    #[trigger] self.fed(more).flash_cycle(timeout),
                    self.flash_cycle(timeout),
                    more,
                ),
    {
        broadcast use {group_resumes, Run::law_poll_flash_done_resumes};

        self.lemma_start();
        reveal(Run::flash_cycle);
    }

    /// `set_up_cycle` only adds to a run, and resumes with more answers.
    pub broadcast proof fn law_set_up_cycle_resumes(self, cycle: Cycle, addr: u32)
        ensures
            (#[trigger] self.set_up_cycle(cycle, addr)).continues(self),
            forall|more: Seq<Reply>|
                (#[trigger] self.fed(more).set_up_cycle(cycle, addr)).resumes(
                    self.set_up_cycle(cycle, addr),
                    more,
                ),
    {
        broadcast use group_resumes;

        self.lemma_start();
        reveal(Run::set_up_cycle);
    }

    /// `flash_attempt` only adds to a run, and resumes with more answers.
    pub broadcast proof fn law_flash_attempt_resumes(self, cycle: Cycle, addr: u32)
        ensures
            (#[trigger] self.flash_attempt(cycle, addr)).0.continues(self),
            forall|more: Seq<Reply>|
                agree(
                    #[trigger] self.fed(more).flash_attempt(cycle, addr),
                    self.flash_attempt(cycle, addr),
                    more,
                ),
    {
        broadcast use {
            group_resumes,
            Run::law_flash_cycle_init_resumes,
            Run::law_set_up_cycle_resumes,
            Run::law_flash_cycle_resumes,
        };

        self.lemma_start();
        reveal(Run::flash_attempt);
    }

    proof fn lemma_flash_access_continues(self, cycle: Cycle, addr: u32, repeats: int)
        ensures
            self.flash_access(cycle, addr, repeats).0.continues(self),
        decreases ICH_FLASH_CYCLE_REPEAT_COUNT - repeats,
    {
        broadcast use {group_resumes, Run::law_flash_attempt_resumes};

        self.lemma_start();
        if repeats < ICH_FLASH_CYCLE_REPEAT_COUNT {
            self.flash_attempt(cycle, addr).0.lemma_flash_access_continues(cycle, addr, repeats + 1);
        }
    }

    /// `flash_access` only adds to a run, and resumes with more answers.
    pub broadcast proof fn law_flash_access_resumes(self, cycle: Cycle, addr: u32, repeats: int)
        ensures
            (#[trigger] self.flash_access(cycle, addr, repeats)).0.continues(self),
            forall|more: Seq<Reply>|
                agree(
                    #[trigger] self.fed(more).flash_access(cycle, addr, repeats),
                    self.flash_access(cycle, addr, repeats),
                    more,
                ),
        decreases ICH_FLASH_CYCLE_REPEAT_COUNT - repeats,
    {
        broadcast use {group_resumes, Run::law_flash_attempt_resumes};

        self.lemma_start();
        self.lemma_flash_access_continues(cycle, addr, repeats);
        assert forall|more: Seq<Reply>|
            agree(
                #[trigger] self.fed(more).flash_access(cycle, addr, repeats),
                self.flash_access(cycle, addr, repeats),
                more,
            ) by {
            if repeats < ICH_FLASH_CYCLE_REPEAT_COUNT {
                let fed = self.fed(more);
                self.flash_attempt(cycle, addr).0.law_flash_access_resumes(cycle, addr, repeats + 1);
                fed.flash_attempt(cycle, addr).0.lemma_flash_access_continues(
                    cycle,
                    addr,
                    repeats + 1,
                );
            }
        }
    }

    /// `read_flash_data` only adds to a run, and resumes with more answers.
    pub broadcast proof fn law_read_flash_data_resumes(self, offset: u32, size: u32, data: u16)
        ensures
            (#[trigger] self.read_flash_data(offset, size, data)).0.continues(self),
            forall|more: Seq<Reply>|
                agree_3(
                    #[trigger] self.fed(more).read_flash_data(offset, size, data),
                    self.read_flash_data(offset, size, data),
                    more,
                ),
    {
        broadcast use {group_resumes, Run::law_flash_access_resumes};

        self.lemma_start();
        reveal(Run::read_flash_data);
    }

    /// `read_flash_data32` only adds to a run, and resumes with more answers.
    pub broadcast proof fn law_read_flash_data32_resumes(self, offset: u32, data: u32)
        ensures
            (#[trigger] self.read_flash_data32(offset, data)).0.continues(self),
            forall|more: Seq<Reply>|
                agree_3(
                    #[trigger] self.fed(more).read_flash_data32(offset, data),
                    self.read_flash_data32(offset, data),
                    more,
                ),
    {
        broadcast use {group_resumes, Run::law_flash_access_resumes};

        self.lemma_start();
        reveal(Run::read_flash_data32);
    }

    /// `read_flash_dword` only adds to a run, and resumes with more answers.
    pub broadcast proof fn law_read_flash_dword_resumes(self, offset: u32, data: u32)
        ensures
            (#[trigger] self.read_flash_dword(offset, data)).0.continues(self),
            forall|more: Seq<Reply>|
                agree_3(
                    #[trigger] self.fed(more).read_flash_dword(offset, data),
                    self.read_flash_dword(offset, data),
                    more,
                ),
    {
        broadcast use {group_resumes, Run::law_read_flash_data32_resumes};

        self.lemma_start();
    }

    /// `read_flash_word` only adds to a run, and resumes with more answers.
    pub broadcast proof fn law_read_flash_word_resumes(self, offset: u32, data: u16)
        ensures
            (#[trigger] self.read_flash_word(offset, data)).0.continues(self),
            forall|more: Seq<Reply>|
                agree_3(
                    #[trigger] self.fed(more).read_flash_word(offset, data),
                    self.read_flash_word(offset, data),
                    more,
                ),
    {
        broadcast use {group_resumes, Run::law_read_flash_data_resumes};

        self.lemma_start();
    }

    /// `read_flash_byte` only adds to a run, and resumes with more answers.
    pub broadcast proof fn law_read_flash_byte_resumes(self, offset: u32, data: u8)
        ensures
            (#[trigger] self.read_flash_byte(offset, data)).0.continues(self),
            forall|more: Seq<Reply>|
                agree_3(
                    #[trigger] self.fed(more).read_flash_byte(offset, data),
                    self.read_flash_byte(offset, data),
                    more,
                ),
    {
        broadcast use {group_resumes, Run::law_read_flash_data_resumes};

        self.lemma_start();
        reveal(Run::read_flash_byte);
    }

    /// `write_flash_data32` only adds to a run, and resumes with more answers.
    pub broadcast proof fn law_write_flash_data32_resumes(self, offset: u32, data: u32)
        ensures
            (#[trigger] self.write_flash_data32(offset, data)).0.continues(self),
            forall|more: Seq<Reply>|
                agree(
                    #[trigger] self.fed(more).write_flash_data32(offset, data),
                    self.write_flash_data32(offset, data),
                    more,
                ),
    {
        broadcast use {group_resumes, Run::law_flash_access_resumes};

        self.lemma_start();
        reveal(Run::write_flash_data32);
    }
}

} // verus!
