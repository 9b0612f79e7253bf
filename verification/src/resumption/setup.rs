//! Resuming: setting up the link.

use vstd::prelude::*;
use crate::io::{Reply, Run};
use crate::resume::{agree, group_resumes};

verus! {

impl Run {
    /// `setup_copper_link` only adds to a run, and resumes with more answers.
    pub broadcast proof fn law_setup_copper_link_resumes(self)
        ensures
            (#[trigger] self.setup_copper_link()).0.continues(self),
            forall|more: Seq<Reply>|
                agree(
                    #[trigger] self.fed(more).setup_copper_link(),
                    self.setup_copper_link(),
                    more,
                ),
    {
        broadcast use group_resumes;

        self.lemma_start();
        reveal(Run::setup_copper_link);
    }

    /// `op_setup_physical_interface` only adds to a run, and resumes with more answers.
    pub broadcast proof fn law_op_setup_physical_interface_resumes(self)
        ensures
            (#[trigger] self.op_setup_physical_interface()).0.continues(self),
            forall|more: Seq<Reply>|
                agree(
                    #[trigger] self.fed(more).op_setup_physical_interface(),
                    self.op_setup_physical_interface(),
                    more,
                ),
    {
        broadcast use {group_resumes, Run::law_setup_copper_link_resumes};

        self.lemma_start();
        reveal(Run::op_setup_physical_interface);
    }

    /// `setup_flow_control` only adds to a run, and resumes with more answers.
    pub broadcast proof fn law_setup_flow_control_resumes(self)
        ensures
            (#[trigger] self.setup_flow_control()).0.continues(self),
            forall|more: Seq<Reply>|
                agree(
                    #[trigger] self.fed(more).setup_flow_control(),
                    self.setup_flow_control(),
                    more,
                ),
    {
        broadcast use group_resumes;

        self.lemma_start();
        reveal(Run::setup_flow_control);
    }

    /// `setup_link` only adds to a run, and resumes with more answers.
    pub broadcast proof fn law_setup_link_resumes(self)
        ensures
            (#[trigger] self.setup_link()).0.continues(self),
            forall|more: Seq<Reply>|
                agree(#[trigger] self.fed(more).setup_link(), self.setup_link(), more),
    {
        broadcast use {
            group_resumes,
            Run::law_op_setup_physical_interface_resumes,
            Run::law_setup_flow_control_resumes,
        };

        self.lemma_start();
        reveal(Run::setup_link);
    }

    /// `op_setup_link` only adds to a run, and resumes with more answers.
    pub broadcast proof fn law_op_setup_link_resumes(self)
        ensures
            (#[trigger] self.op_setup_link()).0.continues(self),
            forall|more: Seq<Reply>|
                agree(#[trigger] self.fed(more).op_setup_link(), self.op_setup_link(), more),
    {
        broadcast use {group_resumes, Run::law_setup_link_resumes};

        self.lemma_start();
        reveal(Run::op_setup_link);
    }
}

} // verus!
