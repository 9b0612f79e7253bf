//! Resuming: the link information.

use vstd::prelude::*;
use crate::io::{Reply, Run};
use crate::resume::{agree_4, group_resumes};

verus! {

impl Run {
    /// `link_up_info` only adds to a run, and resumes with more answers.
    pub broadcast proof fn law_link_up_info_resumes(self, speed: u16, duplex: u16)
        ensures
            (#[trigger] self.link_up_info(speed, duplex)).0.continues(self),
            forall|more: Seq<Reply>|
                agree_4(
                    #[trigger] self.fed(more).link_up_info(speed, duplex),
                    self.link_up_info(speed, duplex),
                    more,
                ),
    {
        broadcast use group_resumes;

        self.lemma_start();
        reveal(Run::link_up_info);
    }

    /// `op_link_up_info` only adds to a run, and resumes with more answers.
    pub broadcast proof fn law_op_link_up_info_resumes(self, speed: u16, duplex: u16)
        ensures
            (#[trigger] self.op_link_up_info(speed, duplex)).0.continues(self),
            forall|more: Seq<Reply>|
                agree_4(
                    #[trigger] self.fed(more).op_link_up_info(speed, duplex),
                    self.op_link_up_info(speed, duplex),
                    more,
                ),
    {
        broadcast use {group_resumes, Run::law_link_up_info_resumes};

        self.lemma_start();
        reveal(Run::op_link_up_info);
    }
}

} // verus!
