//! Resuming: the software flag.

use vstd::prelude::*;
use crate::consts::{E1000_EXTCNF_CTRL, E1000_FWSM, E1000_STATUS};
use crate::io::{Reply, Run};
use crate::resume::{agree, agree_3, group_resumes};

verus! {

impl Run {
    /// `gate_phy_config` only adds to a run, and resumes with more answers.
    pub broadcast proof fn law_gate_phy_config_resumes(self, gate: bool)
        ensures
            (#[trigger] self.gate_phy_config(gate)).continues(self),
            forall|more: Seq<Reply>|
                (#[trigger] self.fed(more).gate_phy_config(gate)).resumes(
                    self.gate_phy_config(gate),
                    more,
                ),
    {
        broadcast use group_resumes;

        self.lemma_start();
        reveal(Run::gate_phy_config);
    }

    proof fn lemma_poll_init_done_continues(self, tries: int)
        ensures
            self.poll_init_done(tries).continues(self),
        decreases tries,
    {
        broadcast use group_resumes;

        self.lemma_start();
        if tries > 1 {
            self.read_register(E1000_STATUS).0.usec_delay(100).lemma_poll_init_done_continues(
                tries - 1,
            );
        }
    }

    /// `poll_init_done` only adds to a run, and resumes with more answers.
    pub broadcast proof fn law_poll_init_done_resumes(self, tries: int)
        ensures
            (#[trigger] self.poll_init_done(tries)).continues(self),
            forall|more: Seq<Reply>|
                (#[trigger] self.fed(more).poll_init_done(tries)).resumes(
                    self.poll_init_done(tries),
                    more,
                ),
        decreases tries,
    {
        broadcast use group_resumes;

        self.lemma_start();
        self.lemma_poll_init_done_continues(tries);
        assert forall|more: Seq<Reply>|
            (#[trigger] self.fed(more).poll_init_done(tries)).resumes(
                self.poll_init_done(tries),
                more,
            ) by {
            if tries > 1 {
                let fed = self.fed(more);
                self.read_register(E1000_STATUS).0.usec_delay(100).law_poll_init_done_resumes(
                    tries - 1,
                );
                fed.read_register(E1000_STATUS).0.usec_delay(100).lemma_poll_init_done_continues(
                    tries - 1,
                );
            }
        }
    }

    /// `lan_init_done` only adds to a run, and resumes with more answers.
    pub broadcast proof fn law_lan_init_done_resumes(self)
        ensures
            (#[trigger] self.lan_init_done()).continues(self),
            forall|more: Seq<Reply>|
                (#[trigger] self.fed(more).lan_init_done()).resumes(self.lan_init_done(), more),
    {
        broadcast use {group_resumes, Run::law_poll_init_done_resumes};

        self.lemma_start();
        reveal(Run::lan_init_done);
    }

    proof fn lemma_poll_flag_continues(self, wanted: bool, tries: int, last: u32)
        ensures
            self.poll_flag(wanted, tries, last).0.continues(self),
        decreases tries,
    {
        broadcast use group_resumes;

        self.lemma_start();
        if tries > 0 {
            let (s, v) = self.read_register(E1000_EXTCNF_CTRL);
            s.msec_delay(1).lemma_poll_flag_continues(wanted, tries - 1, v);
        }
    }

    /// `poll_flag` only adds to a run, and resumes with more answers.
    pub broadcast proof fn law_poll_flag_resumes(self, wanted: bool, tries: int, last: u32)
        ensures
            (#[trigger] self.poll_flag(wanted, tries, last)).0.continues(self),
            forall|more: Seq<Reply>|
                agree_3(
                    #[trigger] self.fed(more).poll_flag(wanted, tries, last),
                    self.poll_flag(wanted, tries, last),
                    more,
                ),
        decreases tries,
    {
        broadcast use group_resumes;

        self.lemma_start();
        self.lemma_poll_flag_continues(wanted, tries, last);
        assert forall|more: Seq<Reply>|
            agree_3(
                #[trigger] self.fed(more).poll_flag(wanted, tries, last),
                self.poll_flag(wanted, tries, last),
                more,
            ) by {
            if tries > 0 {
                let fed = self.fed(more);
                let (s, v) = self.read_register(E1000_EXTCNF_CTRL);
                s.msec_delay(1).law_poll_flag_resumes(wanted, tries - 1, v);
                let (s, v) = fed.read_register(E1000_EXTCNF_CTRL);
                s.msec_delay(1).lemma_poll_flag_continues(wanted, tries - 1, v);
            }
        }
    }

    /// `acquire_swflag` only adds to a run, and resumes with more answers.
    pub broadcast proof fn law_acquire_swflag_resumes(self)
        ensures
            (#[trigger] self.acquire_swflag()).0.continues(self),
            forall|more: Seq<Reply>|
                agree(#[trigger] self.fed(more).acquire_swflag(), self.acquire_swflag(), more),
    {
        broadcast use {group_resumes, Run::law_poll_flag_resumes};

        self.lemma_start();
        reveal(Run::acquire_swflag);
    }

    /// `release_swflag` only adds to a run, and resumes with more answers.
    pub broadcast proof fn law_release_swflag_resumes(self)
        ensures
            (#[trigger] self.release_swflag()).continues(self),
            forall|more: Seq<Reply>|
                (#[trigger] self.fed(more).release_swflag()).resumes(self.release_swflag(), more),
    {
        broadcast use group_resumes;

        self.lemma_start();
        reveal(Run::release_swflag);
    }

    proof fn lemma_poll_reset_block_continues(self, tries: int)
        ensures
            self.poll_reset_block(tries).0.continues(self),
        decreases tries,
    {
        broadcast use group_resumes;

        self.lemma_start();
        if tries > 1 {
            self.read_register(E1000_FWSM).0.msec_delay(10).lemma_poll_reset_block_continues(
                tries - 1,
            );
        }
    }

    /// `poll_reset_block` only adds to a run, and resumes with more answers.
    pub broadcast proof fn law_poll_reset_block_resumes(self, tries: int)
        ensures
            (#[trigger] self.poll_reset_block(tries)).0.continues(self),
            forall|more: Seq<Reply>|
                agree(
                    #[trigger] self.fed(more).poll_reset_block(tries),
                    self.poll_reset_block(tries),
                    more,
                ),
        decreases tries,
    {
        broadcast use group_resumes;

        self.lemma_start();
        self.lemma_poll_reset_block_continues(tries);
        assert forall|more: Seq<Reply>|
            agree(
                #[trigger] self.fed(more).poll_reset_block(tries),
                self.poll_reset_block(tries),
                more,
            ) by {
            if tries > 1 {
                let fed = self.fed(more);
                self.read_register(E1000_FWSM).0.msec_delay(10).law_poll_reset_block_resumes(
                    tries - 1,
                );
                fed.read_register(E1000_FWSM).0.msec_delay(10).lemma_poll_reset_block_continues(
                    tries - 1,
                );
            }
        }
    }
}

} // verus!
