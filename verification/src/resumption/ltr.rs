//! Resuming: latency tolerance reporting.

use vstd::prelude::*;
use crate::io::{Reply, Run};
use crate::resume::{agree, group_resumes};

verus! {

impl Run {
    /// `program_ltr` only adds to a run, and resumes with more answers.
    pub broadcast proof fn law_program_ltr_resumes(self, ltrv: u32, high_water: u32)
        ensures
            (#[trigger] self.program_ltr(ltrv, high_water)).continues(self),
            forall|more: Seq<Reply>|
                (#[trigger] self.fed(more).program_ltr(ltrv, high_water)).resumes(
                    self.program_ltr(ltrv, high_water),
                    more,
                ),
    {
        broadcast use group_resumes;

        self.lemma_start();
        reveal(Run::program_ltr);
    }

    /// `platform_pm` only adds to a run, and resumes with more answers.
    pub broadcast proof fn law_platform_pm_resumes(self, link: bool)
        ensures
            (#[trigger] self.platform_pm(link)).0.continues(self),
            forall|more: Seq<Reply>|
                agree(#[trigger] self.fed(more).platform_pm(link), self.platform_pm(link), more),
    {
        broadcast use {
            group_resumes,
            Run::law_program_ltr_resumes,
            Run::law_op_link_up_info_resumes,
        };

        self.lemma_start();
        reveal(Run::platform_pm);
    }
}

} // verus!
