//! Resuming: energy efficient Ethernet.

use vstd::prelude::*;
use crate::io::{Reply, Run};
use crate::resume::{agree, agree_4, group_resumes};

verus! {

impl Run {
    /// `with_lp_ability` only adds to a run, and resumes with more answers.
    pub broadcast proof fn law_with_lp_ability_resumes(self, ability: u16)
        ensures
            (#[trigger] self.with_lp_ability(ability)).continues(self),
            forall|more: Seq<Reply>|
                (#[trigger] self.fed(more).with_lp_ability(ability)).resumes(
                    self.with_lp_ability(ability),
                    more,
                ),
    {
        broadcast use group_resumes;

        self.lemma_start();
        reveal(Run::with_lp_ability);
    }

    /// `negotiate_eee` only adds to a run, and resumes with more answers.
    pub broadcast proof fn law_negotiate_eee_resumes(self, lpi_ctrl: u16)
        ensures
            (#[trigger] self.negotiate_eee(lpi_ctrl)).0.continues(self),
            forall|more: Seq<Reply>|
                agree_4(
                    #[trigger] self.fed(more).negotiate_eee(lpi_ctrl),
                    self.negotiate_eee(lpi_ctrl),
                    more,
                ),
    {
        broadcast use {group_resumes, Run::law_read_emi_resumes, Run::law_with_lp_ability_resumes};

        self.lemma_start();
        reveal(Run::negotiate_eee);
    }

    /// `finish_eee` only adds to a run, and resumes with more answers.
    pub broadcast proof fn law_finish_eee_resumes(self, lpi_ctrl: u16, data: u16)
        ensures
            (#[trigger] self.finish_eee(lpi_ctrl, data)).0.continues(self),
            forall|more: Seq<Reply>|
                agree(
                    #[trigger] self.fed(more).finish_eee(lpi_ctrl, data),
                    self.finish_eee(lpi_ctrl, data),
                    more,
                ),
    {
        broadcast use {group_resumes, Run::law_read_emi_resumes};

        self.lemma_start();
        reveal(Run::finish_eee);
    }

    /// `set_eee` only adds to a run, and resumes with more answers.
    pub broadcast proof fn law_set_eee_resumes(self)
        ensures
            (#[trigger] self.set_eee()).0.continues(self),
            forall|more: Seq<Reply>|
                agree(#[trigger] self.fed(more).set_eee(), self.set_eee(), more),
    {
        broadcast use {group_resumes, Run::law_finish_eee_resumes, Run::law_negotiate_eee_resumes};

        self.lemma_start();
        reveal(Run::set_eee);
    }
}

} // verus!
