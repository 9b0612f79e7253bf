//! Resuming: the receive addresses.

use vstd::prelude::*;
use crate::io::{Reply, Run};
use crate::resume::{agree, group_resumes};

verus! {

impl Run {
    /// `write_shared` only adds to a run, and resumes with more answers.
    pub broadcast proof fn law_write_shared_resumes(self, i: int, low: u32, high: u32, index: usize)
        ensures
            (#[trigger] self.write_shared(i, low, high, index)).0.continues(self),
            forall|more: Seq<Reply>|
                agree(
                    #[trigger] self.fed(more).write_shared(i, low, high, index),
                    self.write_shared(i, low, high, index),
                    more,
                ),
    {
        broadcast use {
            group_resumes,
            Run::law_acquire_swflag_resumes,
            Run::law_release_swflag_resumes,
        };

        self.lemma_start();
        reveal(Run::write_shared);
    }

    /// `rar_set` only adds to a run, and resumes with more answers.
    pub broadcast proof fn law_rar_set_resumes(self, addr: Seq<u8>, index: usize)
        ensures
            (#[trigger] self.rar_set(addr, index)).0.continues(self),
            forall|more: Seq<Reply>|
                agree(
                    #[trigger] self.fed(more).rar_set(addr, index),
                    self.rar_set(addr, index),
                    more,
                ),
    {
        broadcast use {group_resumes, Run::law_write_shared_resumes};

        self.lemma_start();
        reveal(Run::rar_set);
    }
}

} // verus!
