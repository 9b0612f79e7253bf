//! Resuming: ultra low power mode.

use vstd::prelude::*;
use crate::consts::E1000_FWSM;
use crate::hw::UlpState;
use crate::io::{Reply, Run};
use crate::resume::{agree, agree_3, group_resumes};

verus! {

impl Run {
    /// `with_ulp_state` only adds to a run, and resumes with more answers.
    pub broadcast proof fn law_with_ulp_state_resumes(self, state: UlpState)
        ensures
            (#[trigger] self.with_ulp_state(state)).continues(self),
            forall|more: Seq<Reply>|
                (#[trigger] self.fed(more).with_ulp_state(state)).resumes(
                    self.with_ulp_state(state),
                    more,
                ),
    {
        broadcast use group_resumes;

        self.lemma_start();
        reveal(Run::with_ulp_state);
    }

    proof fn lemma_poll_ulp_continues(self, tries: int)
        ensures
            self.poll_ulp(tries).0.continues(self),
        decreases tries,
    {
        broadcast use group_resumes;

        self.lemma_start();
        if tries > 1 {
            self.read_register(E1000_FWSM).0.msec_delay(10).lemma_poll_ulp_continues(tries - 1);
        }
    }

    /// `poll_ulp` only adds to a run, and resumes with more answers.
    pub broadcast proof fn law_poll_ulp_resumes(self, tries: int)
        ensures
            (#[trigger] self.poll_ulp(tries)).0.continues(self),
            forall|more: Seq<Reply>|
                agree(#[trigger] self.fed(more).poll_ulp(tries), self.poll_ulp(tries), more),
        decreases tries,
    {
        broadcast use group_resumes;

        self.lemma_start();
        self.lemma_poll_ulp_continues(tries);
        assert forall|more: Seq<Reply>|
            agree(#[trigger] self.fed(more).poll_ulp(tries), self.poll_ulp(tries), more) by {
            if tries > 1 {
                let fed = self.fed(more);
                self.read_register(E1000_FWSM).0.msec_delay(10).law_poll_ulp_resumes(tries - 1);
                fed.read_register(E1000_FWSM).0.msec_delay(10).lemma_poll_ulp_continues(tries - 1);
            }
        }
    }

    /// `leave_ulp_by_firmware` only adds to a run, and resumes with more answers.
    pub broadcast proof fn law_leave_ulp_by_firmware_resumes(self, force: bool)
        ensures
            (#[trigger] self.leave_ulp_by_firmware(force)).0.continues(self),
            forall|more: Seq<Reply>|
                agree(
                    #[trigger] self.fed(more).leave_ulp_by_firmware(force),
                    self.leave_ulp_by_firmware(force),
                    more,
                ),
    {
        broadcast use {group_resumes, Run::law_poll_ulp_resumes, Run::law_with_ulp_state_resumes};

        self.lemma_start();
        reveal(Run::leave_ulp_by_firmware);
    }

    /// `reach_smb_ctrl` only adds to a run, and resumes with more answers.
    pub broadcast proof fn law_reach_smb_ctrl_resumes(self)
        ensures
            (#[trigger] self.reach_smb_ctrl()).0.continues(self),
            forall|more: Seq<Reply>|
                agree_3(#[trigger] self.fed(more).reach_smb_ctrl(), self.reach_smb_ctrl(), more),
    {
        broadcast use group_resumes;

        self.lemma_start();
        reveal(Run::reach_smb_ctrl);
    }

    /// `reconfigure_ulp` only adds to a run, and resumes with more answers.
    pub broadcast proof fn law_reconfigure_ulp_resumes(self, reg: u16)
        ensures
            (#[trigger] self.reconfigure_ulp(reg)).0.continues(self),
            forall|more: Seq<Reply>|
                agree(
                    #[trigger] self.fed(more).reconfigure_ulp(reg),
                    self.reconfigure_ulp(reg),
                    more,
                ),
    {
        broadcast use group_resumes;

        self.lemma_start();
        reveal(Run::reconfigure_ulp);
    }

    /// `clear_ulp_in_phy` only adds to a run, and resumes with more answers.
    pub broadcast proof fn law_clear_ulp_in_phy_resumes(self)
        ensures
            (#[trigger] self.clear_ulp_in_phy()).0.continues(self),
            forall|more: Seq<Reply>|
                agree(#[trigger] self.fed(more).clear_ulp_in_phy(), self.clear_ulp_in_phy(), more),
    {
        broadcast use {
            group_resumes,
            Run::law_reach_smb_ctrl_resumes,
            Run::law_reconfigure_ulp_resumes,
        };

        self.lemma_start();
        reveal(Run::clear_ulp_in_phy);
    }

    /// `release_from_ulp` only adds to a run, and resumes with more answers.
    pub broadcast proof fn law_release_from_ulp_resumes(self, force: bool)
        ensures
            (#[trigger] self.release_from_ulp(force)).0.continues(self),
            forall|more: Seq<Reply>|
                agree(
                    #[trigger] self.fed(more).release_from_ulp(force),
                    self.release_from_ulp(force),
                    more,
                ),
    {
        broadcast use group_resumes;

        self.lemma_start();
        reveal(Run::release_from_ulp);
    }

    /// `leave_ulp_by_software` only adds to a run, and resumes with more answers.
    pub broadcast proof fn law_leave_ulp_by_software_resumes(self, force: bool)
        ensures
            (#[trigger] self.leave_ulp_by_software(force)).0.continues(self),
            forall|more: Seq<Reply>|
                agree(
                    #[trigger] self.fed(more).leave_ulp_by_software(force),
                    self.leave_ulp_by_software(force),
                    more,
                ),
    {
        broadcast use {
            group_resumes,
            Run::law_toggle_lanphypc_resumes,
            Run::law_clear_ulp_in_phy_resumes,
            Run::law_release_from_ulp_resumes,
            Run::law_with_ulp_state_resumes,
        };

        self.lemma_start();
        reveal(Run::leave_ulp_by_software);
    }

    /// `disable_ulp` only adds to a run, and resumes with more answers.
    pub broadcast proof fn law_disable_ulp_resumes(self, force: bool)
        ensures
            (#[trigger] self.disable_ulp(force)).0.continues(self),
            forall|more: Seq<Reply>|
                agree(#[trigger] self.fed(more).disable_ulp(force), self.disable_ulp(force), more),
    {
        broadcast use {
            group_resumes,
            Run::law_leave_ulp_by_firmware_resumes,
            Run::law_leave_ulp_by_software_resumes,
        };

        self.lemma_start();
        reveal(Run::disable_ulp);
    }
}

} // verus!
