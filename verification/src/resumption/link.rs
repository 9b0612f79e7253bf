//! Resuming: the link.

use vstd::prelude::*;
use crate::io::{Reply, Run};
use crate::link::PhyAccess;
use crate::resume::{agree, group_resumes};

verus! {

impl Run {
    /// `rewrite_phy_field` only adds to a run, and resumes with more answers.
    pub broadcast proof fn law_rewrite_phy_field_resumes(
        self,
        f: PhyAccess,
        reg: u32,
        before: u16,
        mask: u16,
        value: u16,
    )
        ensures
            (#[trigger] self.rewrite_phy_field(f, reg, before, mask, value)).0.continues(self),
            forall|more: Seq<Reply>|
                agree(
                    #[trigger] self.fed(more).rewrite_phy_field(f, reg, before, mask, value),
                    self.rewrite_phy_field(f, reg, before, mask, value),
                    more,
                ),
    {
        broadcast use group_resumes;

        self.lemma_start();
        reveal(Run::rewrite_phy_field);
    }

    /// `tune_pll` only adds to a run, and resumes with more answers.
    pub broadcast proof fn law_tune_pll_resumes(self, f: PhyAccess, speed: u16)
        ensures
            (#[trigger] self.tune_pll(f, speed)).continues(self),
            forall|more: Seq<Reply>|
                (#[trigger] self.fed(more).tune_pll(f, speed)).resumes(
                    self.tune_pll(f, speed),
                    more,
                ),
    {
        broadcast use {group_resumes, Run::law_rewrite_phy_field_resumes};

        self.lemma_start();
        reveal(Run::tune_pll);
    }

    /// `tune_ptr_gap` only adds to a run, and resumes with more answers.
    pub broadcast proof fn law_tune_ptr_gap_resumes(self, f: PhyAccess, speed: u16)
        ensures
            (#[trigger] self.tune_ptr_gap(f, speed)).0.continues(self),
            forall|more: Seq<Reply>|
                agree(
                    #[trigger] self.fed(more).tune_ptr_gap(f, speed),
                    self.tune_ptr_gap(f, speed),
                    more,
                ),
    {
        broadcast use group_resumes;

        self.lemma_start();
        reveal(Run::tune_ptr_gap);
    }

    /// `tune_link` only adds to a run, and resumes with more answers.
    pub broadcast proof fn law_tune_link_resumes(self, f: PhyAccess)
        ensures
            (#[trigger] self.tune_link(f)).0.continues(self),
            forall|more: Seq<Reply>|
                agree(#[trigger] self.fed(more).tune_link(f), self.tune_link(f), more),
    {
        broadcast use {
            group_resumes,
            Run::law_write_emi_resumes,
            Run::law_tune_pll_resumes,
            Run::law_tune_ptr_gap_resumes,
        };

        self.lemma_start();
        reveal(Run::tune_link);
    }

    /// `set_beacon` only adds to a run, and resumes with more answers.
    pub broadcast proof fn law_set_beacon_resumes(self)
        ensures
            (#[trigger] self.set_beacon()).continues(self),
            forall|more: Seq<Reply>|
                (#[trigger] self.fed(more).set_beacon()).resumes(self.set_beacon(), more),
    {
        broadcast use group_resumes;

        self.lemma_start();
        reveal(Run::set_beacon);
    }

    /// `settle_k1_off` only adds to a run, and resumes with more answers.
    pub broadcast proof fn law_settle_k1_off_resumes(self)
        ensures
            (#[trigger] self.settle_k1_off()).continues(self),
            forall|more: Seq<Reply>|
                (#[trigger] self.fed(more).settle_k1_off()).resumes(self.settle_k1_off(), more),
    {
        broadcast use group_resumes;

        self.lemma_start();
        reveal(Run::settle_k1_off);
    }

    /// `check_either_way` only adds to a run, and resumes with more answers.
    pub broadcast proof fn law_check_either_way_resumes(self, f: PhyAccess, link: bool)
        ensures
            (#[trigger] self.check_either_way(f, link)).0.continues(self),
            forall|more: Seq<Reply>|
                agree(
                    #[trigger] self.fed(more).check_either_way(f, link),
                    self.check_either_way(f, link),
                    more,
                ),
    {
        broadcast use {
            group_resumes,
            Run::law_tune_link_resumes,
            Run::law_set_beacon_resumes,
            Run::law_k1_workaround_resumes,
            Run::law_platform_pm_resumes,
            Run::law_with_lp_ability_resumes,
            Run::law_settle_k1_off_resumes,
        };

        self.lemma_start();
        reveal(Run::check_either_way);
    }

    /// `set_preambles` only adds to a run, and resumes with more answers.
    pub broadcast proof fn law_set_preambles_resumes(self, f: PhyAccess)
        ensures
            (#[trigger] self.set_preambles(f)).continues(self),
            forall|more: Seq<Reply>|
                (#[trigger] self.fed(more).set_preambles(f)).resumes(self.set_preambles(f), more),
    {
        broadcast use group_resumes;

        self.lemma_start();
        reveal(Run::set_preambles);
    }

    /// `finish_link` only adds to a run, and resumes with more answers.
    pub broadcast proof fn law_finish_link_resumes(self)
        ensures
            (#[trigger] self.finish_link()).0.continues(self),
            forall|more: Seq<Reply>|
                agree(#[trigger] self.fed(more).finish_link(), self.finish_link(), more),
    {
        broadcast use {group_resumes, Run::law_set_eee_resumes};

        self.lemma_start();
        reveal(Run::finish_link);
    }

    /// `link_status_known` only adds to a run, and resumes with more answers.
    pub broadcast proof fn law_link_status_known_resumes(self)
        ensures
            (#[trigger] self.link_status_known()).continues(self),
            forall|more: Seq<Reply>|
                (#[trigger] self.fed(more).link_status_known()).resumes(
                    self.link_status_known(),
                    more,
                ),
    {
        broadcast use group_resumes;

        self.lemma_start();
        reveal(Run::link_status_known);
    }

    /// `link_is_up` only adds to a run, and resumes with more answers.
    pub broadcast proof fn law_link_is_up_resumes(self, f: PhyAccess)
        ensures
            (#[trigger] self.link_is_up(f)).0.continues(self),
            forall|more: Seq<Reply>|
                agree(#[trigger] self.fed(more).link_is_up(f), self.link_is_up(f), more),
    {
        broadcast use {
            group_resumes,
            Run::law_link_status_known_resumes,
            Run::law_set_preambles_resumes,
            Run::law_finish_link_resumes,
        };

        self.lemma_start();
        reveal(Run::link_is_up);
    }

    /// `check_for_copper_link` only adds to a run, and resumes with more answers.
    pub broadcast proof fn law_check_for_copper_link_resumes(self)
        ensures
            (#[trigger] self.check_for_copper_link()).0.continues(self),
            forall|more: Seq<Reply>|
                agree(
                    #[trigger] self.fed(more).check_for_copper_link(),
                    self.check_for_copper_link(),
                    more,
                ),
    {
        broadcast use {
            group_resumes,
            Run::law_check_either_way_resumes,
            Run::law_link_is_up_resumes,
        };

        self.lemma_start();
    }
}

} // verus!
