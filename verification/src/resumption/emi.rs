//! Resuming: the extended management interface.

use vstd::prelude::*;
use crate::io::{Reply, Run};
use crate::resume::{agree, agree_3, group_resumes};

verus! {

impl Run {
    /// `access_emi` only adds to a run, and resumes with more answers.
    pub broadcast proof fn law_access_emi_resumes(self, address: u16, data: u16, read: bool)
        ensures
            (#[trigger] self.access_emi(address, data, read)).0.continues(self),
            forall|more: Seq<Reply>|
                agree_3(
                    #[trigger] self.fed(more).access_emi(address, data, read),
                    self.access_emi(address, data, read),
                    more,
                ),
    {
        broadcast use group_resumes;

        self.lemma_start();
        reveal(Run::access_emi);
    }

    /// `read_emi` only adds to a run, and resumes with more answers.
    pub broadcast proof fn law_read_emi_resumes(self, address: u16, data: u16)
        ensures
            (#[trigger] self.read_emi(address, data)).0.continues(self),
            forall|more: Seq<Reply>|
                agree_3(
                    #[trigger] self.fed(more).read_emi(address, data),
                    self.read_emi(address, data),
                    more,
                ),
    {
        broadcast use {group_resumes, Run::law_access_emi_resumes};

        self.lemma_start();
    }

    /// `write_emi` only adds to a run, and resumes with more answers.
    pub broadcast proof fn law_write_emi_resumes(self, address: u16, data: u16)
        ensures
            (#[trigger] self.write_emi(address, data)).0.continues(self),
            forall|more: Seq<Reply>|
                agree(
                    #[trigger] self.fed(more).write_emi(address, data),
                    self.write_emi(address, data),
                    more,
                ),
    {
        broadcast use {group_resumes, Run::law_access_emi_resumes};

        self.lemma_start();
    }
}

} // verus!
