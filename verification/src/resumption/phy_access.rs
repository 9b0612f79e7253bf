//! Resuming: gaining access to the PHY.

use vstd::prelude::*;
use crate::io::{Reply, Run};
use crate::resume::{agree, agree_3, group_resumes};

verus! {

impl Run {
    /// `read_phy_id` only adds to a run, and resumes with more answers.
    pub broadcast proof fn law_read_phy_id_resumes(self, reg: u16)
        ensures
            (#[trigger] self.read_phy_id(reg)).0.continues(self),
            forall|more: Seq<Reply>|
                agree_3(#[trigger] self.fed(more).read_phy_id(reg), self.read_phy_id(reg), more),
    {
        broadcast use group_resumes;

        self.lemma_start();
        reveal(Run::read_phy_id);
    }

    /// `probe_phy_id` only adds to a run, and resumes with more answers.
    pub broadcast proof fn law_probe_phy_id_resumes(self)
        ensures
            (#[trigger] self.probe_phy_id()).0.continues(self),
            forall|more: Seq<Reply>|
                agree_3(#[trigger] self.fed(more).probe_phy_id(), self.probe_phy_id(), more),
    {
        broadcast use {group_resumes, Run::law_read_phy_id_resumes};

        self.lemma_start();
        reveal(Run::probe_phy_id);
    }

    /// `with_phy_id` only adds to a run, and resumes with more answers.
    pub broadcast proof fn law_with_phy_id_resumes(self, id: u32, revision: u32)
        ensures
            (#[trigger] self.with_phy_id(id, revision)).continues(self),
            forall|more: Seq<Reply>|
                (#[trigger] self.fed(more).with_phy_id(id, revision)).resumes(
                    self.with_phy_id(id, revision),
                    more,
                ),
    {
        broadcast use group_resumes;

        self.lemma_start();
        reveal(Run::with_phy_id);
    }

    /// `read_phy_id_slowly` only adds to a run, and resumes with more answers.
    pub broadcast proof fn law_read_phy_id_slowly_resumes(self)
        ensures
            (#[trigger] self.read_phy_id_slowly()).0.continues(self),
            forall|more: Seq<Reply>|
                agree(
                    #[trigger] self.fed(more).read_phy_id_slowly(),
                    self.read_phy_id_slowly(),
                    more,
                ),
    {
        broadcast use group_resumes;

        self.lemma_start();
        reveal(Run::read_phy_id_slowly);
    }

    /// `confirm_phy_id` only adds to a run, and resumes with more answers.
    pub broadcast proof fn law_confirm_phy_id_resumes(self, id: u32, reg: u16)
        ensures
            (#[trigger] self.confirm_phy_id(id, reg)).0.continues(self),
            forall|more: Seq<Reply>|
                agree(
                    #[trigger] self.fed(more).confirm_phy_id(id, reg),
                    self.confirm_phy_id(id, reg),
                    more,
                ),
    {
        broadcast use {
            group_resumes,
            Run::law_with_phy_id_resumes,
            Run::law_read_phy_id_slowly_resumes,
        };

        self.lemma_start();
        reveal(Run::confirm_phy_id);
    }

    /// `unforce_smbus` only adds to a run, and resumes with more answers.
    pub broadcast proof fn law_unforce_smbus_resumes(self, reg: u16)
        ensures
            (#[trigger] self.unforce_smbus(reg)).continues(self),
            forall|more: Seq<Reply>|
                (#[trigger] self.fed(more).unforce_smbus(reg)).resumes(
                    self.unforce_smbus(reg),
                    more,
                ),
    {
        broadcast use group_resumes;

        self.lemma_start();
        reveal(Run::unforce_smbus);
    }

    /// `phy_accessible` only adds to a run, and resumes with more answers.
    pub broadcast proof fn law_phy_accessible_resumes(self)
        ensures
            (#[trigger] self.phy_accessible()).0.continues(self),
            forall|more: Seq<Reply>|
                agree(#[trigger] self.fed(more).phy_accessible(), self.phy_accessible(), more),
    {
        broadcast use {
            group_resumes,
            Run::law_probe_phy_id_resumes,
            Run::law_confirm_phy_id_resumes,
            Run::law_unforce_smbus_resumes,
        };

        self.lemma_start();
        reveal(Run::phy_accessible);
    }

    /// `phy_reached` only adds to a run, and resumes with more answers.
    pub broadcast proof fn law_phy_reached_resumes(self)
        ensures
            (#[trigger] self.phy_reached()).0.continues(self),
            forall|more: Seq<Reply>|
                agree(#[trigger] self.fed(more).phy_reached(), self.phy_reached(), more),
    {
        broadcast use {group_resumes, Run::law_phy_accessible_resumes};

        self.lemma_start();
        reveal(Run::phy_reached);
    }

    /// `reach_phy_after_power_cycle` only adds to a run, and resumes with more answers.
    pub broadcast proof fn law_reach_phy_after_power_cycle_resumes(self)
        ensures
            (#[trigger] self.reach_phy_after_power_cycle()).0.continues(self),
            forall|more: Seq<Reply>|
                agree(
                    #[trigger] self.fed(more).reach_phy_after_power_cycle(),
                    self.reach_phy_after_power_cycle(),
                    more,
                ),
    {
        broadcast use {group_resumes, Run::law_phy_reached_resumes};

        self.lemma_start();
        reveal(Run::reach_phy_after_power_cycle);
    }

    /// `reach_phy_by_power_cycle` only adds to a run, and resumes with more answers.
    pub broadcast proof fn law_reach_phy_by_power_cycle_resumes(self, fwsm: u32)
        ensures
            (#[trigger] self.reach_phy_by_power_cycle(fwsm)).0.continues(self),
            forall|more: Seq<Reply>|
                agree(
                    #[trigger] self.fed(more).reach_phy_by_power_cycle(fwsm),
                    self.reach_phy_by_power_cycle(fwsm),
                    more,
                ),
    {
        broadcast use {
            group_resumes,
            Run::law_toggle_lanphypc_resumes,
            Run::law_reach_phy_after_power_cycle_resumes,
        };

        self.lemma_start();
        reveal(Run::reach_phy_by_power_cycle);
    }

    /// `reach_phy_as_is` only adds to a run, and resumes with more answers.
    pub broadcast proof fn law_reach_phy_as_is_resumes(self, fwsm: u32)
        ensures
            (#[trigger] self.reach_phy_as_is(fwsm)).0.continues(self),
            forall|more: Seq<Reply>|
                agree(
                    #[trigger] self.fed(more).reach_phy_as_is(fwsm),
                    self.reach_phy_as_is(fwsm),
                    more,
                ),
    {
        broadcast use {
            group_resumes,
            Run::law_phy_reached_resumes,
            Run::law_reach_phy_by_power_cycle_resumes,
        };

        self.lemma_start();
        reveal(Run::reach_phy_as_is);
    }

    /// `reach_phy` only adds to a run, and resumes with more answers.
    pub broadcast proof fn law_reach_phy_resumes(self, fwsm: u32)
        ensures
            (#[trigger] self.reach_phy(fwsm)).0.continues(self),
            forall|more: Seq<Reply>|
                agree(#[trigger] self.fed(more).reach_phy(fwsm), self.reach_phy(fwsm), more),
    {
        broadcast use {
            group_resumes,
            Run::law_phy_reached_resumes,
            Run::law_reach_phy_as_is_resumes,
        };

        self.lemma_start();
        reveal(Run::reach_phy);
    }

    /// `ungate_unmanaged` only adds to a run, and resumes with more answers.
    pub broadcast proof fn law_ungate_unmanaged_resumes(self, fwsm: u32)
        ensures
            (#[trigger] self.ungate_unmanaged(fwsm)).continues(self),
            forall|more: Seq<Reply>|
                (#[trigger] self.fed(more).ungate_unmanaged(fwsm)).resumes(
                    self.ungate_unmanaged(fwsm),
                    more,
                ),
    {
        broadcast use {group_resumes, Run::law_gate_phy_config_resumes};

        self.lemma_start();
        reveal(Run::ungate_unmanaged);
    }

    /// `require_unblocked` only adds to a run, and resumes with more answers.
    pub broadcast proof fn law_require_unblocked_resumes(self, fwsm: u32)
        ensures
            (#[trigger] self.require_unblocked(fwsm)).0.continues(self),
            forall|more: Seq<Reply>|
                agree(
                    #[trigger] self.fed(more).require_unblocked(fwsm),
                    self.require_unblocked(fwsm),
                    more,
                ),
    {
        broadcast use {group_resumes, Run::law_ungate_unmanaged_resumes};

        self.lemma_start();
        reveal(Run::require_unblocked);
    }

    /// `reset_reached_phy` only adds to a run, and resumes with more answers.
    pub broadcast proof fn law_reset_reached_phy_resumes(self, fwsm: u32)
        ensures
            (#[trigger] self.reset_reached_phy(fwsm)).0.continues(self),
            forall|more: Seq<Reply>|
                agree(
                    #[trigger] self.fed(more).reset_reached_phy(fwsm),
                    self.reset_reached_phy(fwsm),
                    more,
                ),
    {
        broadcast use {
            group_resumes,
            Run::law_require_unblocked_resumes,
            Run::law_ungate_unmanaged_resumes,
        };

        self.lemma_start();
        reveal(Run::reset_reached_phy);
    }

    /// `init_phy_workarounds` only adds to a run, and resumes with more answers.
    pub broadcast proof fn law_init_phy_workarounds_resumes(self)
        ensures
            (#[trigger] self.init_phy_workarounds()).0.continues(self),
            forall|more: Seq<Reply>|
                agree(
                    #[trigger] self.fed(more).init_phy_workarounds(),
                    self.init_phy_workarounds(),
                    more,
                ),
    {
        broadcast use {
            group_resumes,
            Run::law_gate_phy_config_resumes,
            Run::law_with_ulp_state_resumes,
            Run::law_disable_ulp_resumes,
            Run::law_reach_phy_resumes,
            Run::law_ungate_unmanaged_resumes,
            Run::law_reset_reached_phy_resumes,
        };

        self.lemma_start();
        reveal(Run::init_phy_workarounds);
    }

    /// `identify_phy` only adds to a run, and resumes with more answers.
    pub broadcast proof fn law_identify_phy_resumes(self)
        ensures
            (#[trigger] self.identify_phy()).0.continues(self),
            forall|more: Seq<Reply>|
                agree(#[trigger] self.fed(more).identify_phy(), self.identify_phy(), more),
    {
        broadcast use {group_resumes, Run::law_read_phy_id_slowly_resumes};

        self.lemma_start();
        reveal(Run::identify_phy);
    }

    /// `init_phy_params` only adds to a run, and resumes with more answers.
    pub broadcast proof fn law_init_phy_params_resumes(self)
        ensures
            (#[trigger] self.init_phy_params()).0.continues(self),
            forall|more: Seq<Reply>|
                agree(#[trigger] self.fed(more).init_phy_params(), self.init_phy_params(), more),
    {
        broadcast use {
            group_resumes,
            Run::law_init_phy_workarounds_resumes,
            Run::law_identify_phy_resumes,
        };

        self.lemma_start();
        reveal(Run::init_phy_params);
    }
}

} // verus!
