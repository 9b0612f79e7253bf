//! Resuming: power cycling the PHY.

use vstd::prelude::*;
use crate::consts::E1000_CTRL_EXT;
use crate::io::{Reply, Run};
use crate::resume::group_resumes;

verus! {

impl Run {
    proof fn lemma_poll_lanphypc_continues(self, tries: int)
        ensures
            self.poll_lanphypc(tries).continues(self),
        decreases tries,
    {
        broadcast use group_resumes;

        self.lemma_start();
        if tries > 1 {
            self.msec_delay(5).read_register(E1000_CTRL_EXT).0.lemma_poll_lanphypc_continues(
                tries - 1,
            );
        }
    }

    /// `poll_lanphypc` only adds to a run, and resumes with more answers.
    pub broadcast proof fn law_poll_lanphypc_resumes(self, tries: int)
        ensures
            (#[trigger] self.poll_lanphypc(tries)).continues(self),
            forall|more: Seq<Reply>|
                (#[trigger] self.fed(more).poll_lanphypc(tries)).resumes(
                    self.poll_lanphypc(tries),
                    more,
                ),
        decreases tries,
    {
        broadcast use group_resumes;

        self.lemma_start();
        self.lemma_poll_lanphypc_continues(tries);
        assert forall|more: Seq<Reply>|
            (#[trigger] self.fed(more).poll_lanphypc(tries)).resumes(
                self.poll_lanphypc(tries),
                more,
            ) by {
            if tries > 1 {
                let fed = self.fed(more);
                self.msec_delay(5).read_register(E1000_CTRL_EXT).0.law_poll_lanphypc_resumes(
                    tries - 1,
                );
                fed.msec_delay(5).read_register(E1000_CTRL_EXT).0.lemma_poll_lanphypc_continues(
                    tries - 1,
                );
            }
        }
    }

    /// `toggle_lanphypc` only adds to a run, and resumes with more answers.
    pub broadcast proof fn law_toggle_lanphypc_resumes(self)
        ensures
            (#[trigger] self.toggle_lanphypc()).continues(self),
            forall|more: Seq<Reply>|
                (#[trigger] self.fed(more).toggle_lanphypc()).resumes(
                    self.toggle_lanphypc(),
                    more,
                ),
    {
        broadcast use {group_resumes, Run::law_poll_lanphypc_resumes};

        self.lemma_start();
        reveal(Run::toggle_lanphypc);
    }
}

} // verus!
