//! Resuming: the statistics counters.

use vstd::prelude::*;
use crate::hw::Func;
use crate::io::{Call, Reply, Run};
use crate::resume::{agree, group_resumes};

verus! {

impl Run {
    proof fn lemma_read_each_continues(self, regs: Seq<u32>, i: int)
        ensures
            self.read_each(regs, i).continues(self),
        decreases regs.len() - i,
    {
        broadcast use group_resumes;

        self.lemma_start();
        if i < regs.len() {
            self.read_register(regs[i]).0.lemma_read_each_continues(regs, i + 1);
        }
    }

    /// `read_each` only adds to a run, and resumes with more answers.
    pub broadcast proof fn law_read_each_resumes(self, regs: Seq<u32>, i: int)
        ensures
            (#[trigger] self.read_each(regs, i)).continues(self),
            forall|more: Seq<Reply>|
                (#[trigger] self.fed(more).read_each(regs, i)).resumes(
                    self.read_each(regs, i),
                    more,
                ),
        decreases regs.len() - i,
    {
        broadcast use group_resumes;

        self.lemma_start();
        self.lemma_read_each_continues(regs, i);
        assert forall|more: Seq<Reply>|
            (#[trigger] self.fed(more).read_each(regs, i)).resumes(self.read_each(regs, i), more) by {
            if i < regs.len() {
                let fed = self.fed(more);
                self.read_register(regs[i]).0.law_read_each_resumes(regs, i + 1);
                fed.read_register(regs[i]).0.lemma_read_each_continues(regs, i + 1);
            }
        }
    }

    proof fn lemma_read_each_by_continues(self, f: Func, regs: Seq<u32>, i: int, data: u16)
        ensures
            self.read_each_by(f, regs, i, data).0.continues(self),
        decreases regs.len() - i,
    {
        broadcast use group_resumes;

        self.lemma_start();
        if i < regs.len() {
            let (s, _, d) = self.fetch(Call::OpReadReg(f, regs[i], data));
            s.lemma_read_each_by_continues(f, regs, i + 1, d);
        }
    }

    /// `read_each_by` only adds to a run, and resumes with more answers.
    pub broadcast proof fn law_read_each_by_resumes(
        self,
        f: Func,
        regs: Seq<u32>,
        i: int,
        data: u16,
    )
        ensures
            (#[trigger] self.read_each_by(f, regs, i, data)).0.continues(self),
            forall|more: Seq<Reply>|
                agree(
                    #[trigger] self.fed(more).read_each_by(f, regs, i, data),
                    self.read_each_by(f, regs, i, data),
                    more,
                ),
        decreases regs.len() - i,
    {
        broadcast use group_resumes;

        self.lemma_start();
        self.lemma_read_each_by_continues(f, regs, i, data);
        assert forall|more: Seq<Reply>|
            agree(
                #[trigger] self.fed(more).read_each_by(f, regs, i, data),
                self.read_each_by(f, regs, i, data),
                more,
            ) by {
            if i < regs.len() {
                let fed = self.fed(more);
                let (s, _, d) = self.fetch(Call::OpReadReg(f, regs[i], data));
                s.law_read_each_by_resumes(f, regs, i + 1, d);
                let (s, _, d) = fed.fetch(Call::OpReadReg(f, regs[i], data));
                s.lemma_read_each_by_continues(f, regs, i + 1, d);
            }
        }
    }

    /// `op_set_page` only adds to a run, and resumes with more answers.
    pub broadcast proof fn law_op_set_page_resumes(self, page: u16)
        ensures
            (#[trigger] self.op_set_page(page)).0.continues(self),
            forall|more: Seq<Reply>|
                agree(#[trigger] self.fed(more).op_set_page(page), self.op_set_page(page), more),
    {
        broadcast use group_resumes;

        self.lemma_start();
        reveal(Run::op_set_page);
    }

    /// `clear_phy_counters` only adds to a run, and resumes with more answers.
    pub broadcast proof fn law_clear_phy_counters_resumes(self)
        ensures
            (#[trigger] self.clear_phy_counters()).0.continues(self),
            forall|more: Seq<Reply>|
                agree(
                    #[trigger] self.fed(more).clear_phy_counters(),
                    self.clear_phy_counters(),
                    more,
                ),
    {
        broadcast use {group_resumes, Run::law_op_set_page_resumes, Run::law_read_each_by_resumes};

        self.lemma_start();
        reveal(Run::clear_phy_counters);
    }

    /// `clear_counters` only adds to a run, and resumes with more answers.
    pub broadcast proof fn law_clear_counters_resumes(self)
        ensures
            (#[trigger] self.clear_counters()).0.continues(self),
            forall|more: Seq<Reply>|
                agree(#[trigger] self.fed(more).clear_counters(), self.clear_counters(), more),
    {
        broadcast use {
            group_resumes,
            Run::law_read_each_resumes,
            Run::law_clear_phy_counters_resumes,
        };

        self.lemma_start();
        reveal(Run::clear_counters);
    }
}

} // verus!
