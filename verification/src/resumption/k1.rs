//! Resuming: the K1 power state.

use vstd::prelude::*;
use crate::io::{Reply, Run};
use crate::resume::{agree, group_resumes};

verus! {

impl Run {
    /// `k1_gigabit` only adds to a run, and resumes with more answers.
    pub broadcast proof fn law_k1_gigabit_resumes(self, fextnvm6: u32)
        ensures
            (#[trigger] self.k1_gigabit(fextnvm6)).0.continues(self),
            forall|more: Seq<Reply>|
                agree(
                    #[trigger] self.fed(more).k1_gigabit(fextnvm6),
                    self.k1_gigabit(fextnvm6),
                    more,
                ),
    {
        broadcast use group_resumes;

        self.lemma_start();
        reveal(Run::k1_gigabit);
    }

    /// `k1_slow` only adds to a run, and resumes with more answers.
    pub broadcast proof fn law_k1_slow_resumes(self, link: bool, fextnvm6: u32, status: u32)
        ensures
            (#[trigger] self.k1_slow(link, fextnvm6, status)).0.continues(self),
            forall|more: Seq<Reply>|
                agree(
                    #[trigger] self.fed(more).k1_slow(link, fextnvm6, status),
                    self.k1_slow(link, fextnvm6, status),
                    more,
                ),
    {
        broadcast use group_resumes;

        self.lemma_start();
        reveal(Run::k1_slow);
    }

    /// `k1_workaround` only adds to a run, and resumes with more answers.
    pub broadcast proof fn law_k1_workaround_resumes(self, link: bool)
        ensures
            (#[trigger] self.k1_workaround(link)).0.continues(self),
            forall|more: Seq<Reply>|
                agree(
                    #[trigger] self.fed(more).k1_workaround(link),
                    self.k1_workaround(link),
                    more,
                ),
    {
        broadcast use {group_resumes, Run::law_k1_gigabit_resumes, Run::law_k1_slow_resumes};

        self.lemma_start();
        reveal(Run::k1_workaround);
    }
}

} // verus!
