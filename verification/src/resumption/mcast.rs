//! Resuming: the multicast table.

use vstd::prelude::*;
use crate::hw::Func;
use crate::io::{Call, Reply, Run};
use crate::mcast::bm_mta;
use crate::resume::{agree, group_resumes};

verus! {

impl Run {
    proof fn lemma_copy_mta_continues(self, f: Func, i: int, count: int)
        ensures
            self.copy_mta(f, i, count).0.continues(self),
        decreases count - i,
    {
        broadcast use group_resumes;

        self.lemma_start();
        if i < count {
            let low = (self.hw.mac.mta_shadow[i] as u16) & 0xFFFF;
            let (s, _) = self.invoke(Call::OpWriteReg(f, bm_mta(i), low));
            let high = ((s.hw.mac.mta_shadow[i] >> 16) as u16) & 0xFFFF;
            let (s, _) = s.invoke(Call::OpWriteReg(f, (bm_mta(i) + 1) as u32, high));
            s.lemma_copy_mta_continues(f, i + 1, count);
        }
    }

    /// `copy_mta` only adds to a run, and resumes with more answers.
    pub broadcast proof fn law_copy_mta_resumes(self, f: Func, i: int, count: int)
        ensures
            (#[trigger] self.copy_mta(f, i, count)).0.continues(self),
            forall|more: Seq<Reply>|
                agree(
                    #[trigger] self.fed(more).copy_mta(f, i, count),
                    self.copy_mta(f, i, count),
                    more,
                ),
        decreases count - i,
    {
        broadcast use group_resumes;

        self.lemma_start();
        self.lemma_copy_mta_continues(f, i, count);
        assert forall|more: Seq<Reply>|
            agree(
                #[trigger] self.fed(more).copy_mta(f, i, count),
                self.copy_mta(f, i, count),
                more,
            ) by {
            if i < count {
                let fed = self.fed(more);
                let low = (self.hw.mac.mta_shadow[i] as u16) & 0xFFFF;
                let (s, _) = self.invoke(Call::OpWriteReg(f, bm_mta(i), low));
                let high = ((s.hw.mac.mta_shadow[i] >> 16) as u16) & 0xFFFF;
                let (s, _) = s.invoke(Call::OpWriteReg(f, (bm_mta(i) + 1) as u32, high));
                s.law_copy_mta_resumes(f, i + 1, count);
                let low = (fed.hw.mac.mta_shadow[i] as u16) & 0xFFFF;
                let (s, _) = fed.invoke(Call::OpWriteReg(f, bm_mta(i), low));
                let high = ((s.hw.mac.mta_shadow[i] >> 16) as u16) & 0xFFFF;
                let (s, _) = s.invoke(Call::OpWriteReg(f, (bm_mta(i) + 1) as u32, high));
                s.lemma_copy_mta_continues(f, i + 1, count);
            }
        }
    }

    /// `copy_mta_to_phy` only adds to a run, and resumes with more answers.
    pub broadcast proof fn law_copy_mta_to_phy_resumes(self)
        ensures
            (#[trigger] self.copy_mta_to_phy()).0.continues(self),
            forall|more: Seq<Reply>|
                agree(#[trigger] self.fed(more).copy_mta_to_phy(), self.copy_mta_to_phy(), more),
    {
        broadcast use {group_resumes, Run::law_copy_mta_resumes};

        self.lemma_start();
        reveal(Run::copy_mta_to_phy);
    }

    /// `update_mc_addr_list` only adds to a run, and resumes with more answers.
    pub broadcast proof fn law_update_mc_addr_list_resumes(self, count: u32)
        ensures
            (#[trigger] self.update_mc_addr_list(count)).0.continues(self),
            forall|more: Seq<Reply>|
                agree(
                    #[trigger] self.fed(more).update_mc_addr_list(count),
                    self.update_mc_addr_list(count),
                    more,
                ),
    {
        broadcast use {group_resumes, Run::law_copy_mta_to_phy_resumes};

        self.lemma_start();
        reveal(Run::update_mc_addr_list);
    }
}

} // verus!
