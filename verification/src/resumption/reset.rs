//! Resuming: resetting the hardware.

use vstd::prelude::*;
use crate::consts::E1000_MTA;
use crate::io::{Action, Reply, Run};
use crate::resume::{agree, group_resumes};

verus! {

impl Run {
    /// `with_nvm_k1` only adds to a run, and resumes with more answers.
    pub broadcast proof fn law_with_nvm_k1_resumes(self, enabled: bool)
        ensures
            (#[trigger] self.with_nvm_k1(enabled)).continues(self),
            forall|more: Seq<Reply>|
                (#[trigger] self.fed(more).with_nvm_k1(enabled)).resumes(
                    self.with_nvm_k1(enabled),
                    more,
                ),
    {
        broadcast use group_resumes;

        self.lemma_start();
        reveal(Run::with_nvm_k1);
    }

    /// `quiesce` only adds to a run, and resumes with more answers.
    pub broadcast proof fn law_quiesce_resumes(self)
        ensures
            (#[trigger] self.quiesce()).continues(self),
            forall|more: Seq<Reply>|
                (#[trigger] self.fed(more).quiesce()).resumes(self.quiesce(), more),
    {
        broadcast use group_resumes;

        self.lemma_start();
        reveal(Run::quiesce);
    }

    /// `save_k1_setting` only adds to a run, and resumes with more answers.
    pub broadcast proof fn law_save_k1_setting_resumes(self)
        ensures
            (#[trigger] self.save_k1_setting()).0.continues(self),
            forall|more: Seq<Reply>|
                agree(#[trigger] self.fed(more).save_k1_setting(), self.save_k1_setting(), more),
    {
        broadcast use {group_resumes, Run::law_with_nvm_k1_resumes};

        self.lemma_start();
        reveal(Run::save_k1_setting);
    }

    /// `plan_reset` only adds to a run, and resumes with more answers.
    pub broadcast proof fn law_plan_reset_resumes(self)
        ensures
            (#[trigger] self.plan_reset()).0.continues(self),
            forall|more: Seq<Reply>|
                agree(#[trigger] self.fed(more).plan_reset(), self.plan_reset(), more),
    {
        broadcast use {group_resumes, Run::law_gate_if_unmanaged_resumes};

        self.lemma_start();
        reveal(Run::plan_reset);
    }

    /// `issue_reset` only adds to a run, and resumes with more answers.
    pub broadcast proof fn law_issue_reset_resumes(self, ctrl: u32)
        ensures
            (#[trigger] self.issue_reset(ctrl)).continues(self),
            forall|more: Seq<Reply>|
                (#[trigger] self.fed(more).issue_reset(ctrl)).resumes(
                    self.issue_reset(ctrl),
                    more,
                ),
    {
        broadcast use {group_resumes, Run::law_acquire_swflag_resumes};

        self.lemma_start();
        reveal(Run::issue_reset);
    }

    /// `op_get_cfg_done` only adds to a run, and resumes with more answers.
    pub broadcast proof fn law_op_get_cfg_done_resumes(self)
        ensures
            (#[trigger] self.op_get_cfg_done()).0.continues(self),
            forall|more: Seq<Reply>|
                agree(#[trigger] self.fed(more).op_get_cfg_done(), self.op_get_cfg_done(), more),
    {
        broadcast use {group_resumes, Run::law_get_cfg_done_resumes};

        self.lemma_start();
        reveal(Run::op_get_cfg_done);
    }

    /// `await_phy` only adds to a run, and resumes with more answers.
    pub broadcast proof fn law_await_phy_resumes(self)
        ensures
            (#[trigger] self.await_phy()).0.continues(self),
            forall|more: Seq<Reply>|
                agree(#[trigger] self.fed(more).await_phy(), self.await_phy(), more),
    {
        broadcast use {
            group_resumes,
            Run::law_op_get_cfg_done_resumes,
            Run::law_post_phy_reset_resumes,
        };

        self.lemma_start();
        reveal(Run::await_phy);
    }

    /// `finish_reset` only adds to a run, and resumes with more answers.
    pub broadcast proof fn law_finish_reset_resumes(self)
        ensures
            (#[trigger] self.finish_reset()).continues(self),
            forall|more: Seq<Reply>|
                (#[trigger] self.fed(more).finish_reset()).resumes(self.finish_reset(), more),
    {
        broadcast use group_resumes;

        self.lemma_start();
        reveal(Run::finish_reset);
    }

    /// `reset_hw` only adds to a run, and resumes with more answers.
    pub broadcast proof fn law_reset_hw_resumes(self)
        ensures
            (#[trigger] self.reset_hw()).0.continues(self),
            forall|more: Seq<Reply>|
                agree(#[trigger] self.fed(more).reset_hw(), self.reset_hw(), more),
    {
        broadcast use {
            group_resumes,
            Run::law_quiesce_resumes,
            Run::law_save_k1_setting_resumes,
            Run::law_plan_reset_resumes,
            Run::law_issue_reset_resumes,
            Run::law_await_phy_resumes,
            Run::law_finish_reset_resumes,
        };

        self.lemma_start();
        reveal(Run::reset_hw);
    }

    /// `initialize_queues` only adds to a run, and resumes with more answers.
    pub broadcast proof fn law_initialize_queues_resumes(self)
        ensures
            (#[trigger] self.initialize_queues()).continues(self),
            forall|more: Seq<Reply>|
                (#[trigger] self.fed(more).initialize_queues()).resumes(
                    self.initialize_queues(),
                    more,
                ),
    {
        broadcast use group_resumes;

        self.lemma_start();
        reveal(Run::initialize_queues);
    }

    /// `initialize_filters` only adds to a run, and resumes with more answers.
    pub broadcast proof fn law_initialize_filters_resumes(self)
        ensures
            (#[trigger] self.initialize_filters()).continues(self),
            forall|more: Seq<Reply>|
                (#[trigger] self.fed(more).initialize_filters()).resumes(
                    self.initialize_filters(),
                    more,
                ),
    {
        broadcast use group_resumes;

        self.lemma_start();
        reveal(Run::initialize_filters);
    }

    /// `initialize_hw_bits` only adds to a run, and resumes with more answers.
    pub broadcast proof fn law_initialize_hw_bits_resumes(self)
        ensures
            (#[trigger] self.initialize_hw_bits()).continues(self),
            forall|more: Seq<Reply>|
                (#[trigger] self.fed(more).initialize_hw_bits()).resumes(
                    self.initialize_hw_bits(),
                    more,
                ),
    {
        broadcast use {
            group_resumes,
            Run::law_initialize_queues_resumes,
            Run::law_initialize_filters_resumes,
        };

        self.lemma_start();
        reveal(Run::initialize_hw_bits);
    }

    /// `op_id_led_init` only adds to a run, and resumes with more answers.
    pub broadcast proof fn law_op_id_led_init_resumes(self)
        ensures
            (#[trigger] self.op_id_led_init()).0.continues(self),
            forall|more: Seq<Reply>|
                agree(#[trigger] self.fed(more).op_id_led_init(), self.op_id_led_init(), more),
    {
        broadcast use {group_resumes, Run::law_id_led_init_resumes};

        self.lemma_start();
        reveal(Run::op_id_led_init);
    }

    proof fn lemma_clear_mta_continues(self, i: int, count: int)
        ensures
            self.clear_mta(i, count).continues(self),
        decreases count - i,
    {
        broadcast use group_resumes;

        self.lemma_start();
        if i < count {
            self.act(Action::WriteRegisterArray(E1000_MTA, i as u32, 0)).lemma_clear_mta_continues(
                i + 1,
                count,
            );
        }
    }

    /// `clear_mta` only adds to a run, and resumes with more answers.
    pub broadcast proof fn law_clear_mta_resumes(self, i: int, count: int)
        ensures
            (#[trigger] self.clear_mta(i, count)).continues(self),
            forall|more: Seq<Reply>|
                (#[trigger] self.fed(more).clear_mta(i, count)).resumes(
                    self.clear_mta(i, count),
                    more,
                ),
        decreases count - i,
    {
        broadcast use group_resumes;

        self.lemma_start();
        self.lemma_clear_mta_continues(i, count);
        assert forall|more: Seq<Reply>|
            (#[trigger] self.fed(more).clear_mta(i, count)).resumes(
                self.clear_mta(i, count),
                more,
            ) by {
            if i < count {
                let fed = self.fed(more);
                self.act(Action::WriteRegisterArray(E1000_MTA, i as u32, 0)).law_clear_mta_resumes(
                    i + 1,
                    count,
                );
                fed.act(Action::WriteRegisterArray(E1000_MTA, i as u32, 0)).lemma_clear_mta_continues(
                    i + 1,
                    count,
                );
            }
        }
    }

    /// `initialize_receiver` only adds to a run, and resumes with more answers.
    pub broadcast proof fn law_initialize_receiver_resumes(self)
        ensures
            (#[trigger] self.initialize_receiver()).continues(self),
            forall|more: Seq<Reply>|
                (#[trigger] self.fed(more).initialize_receiver()).resumes(
                    self.initialize_receiver(),
                    more,
                ),
    {
        broadcast use {group_resumes, Run::law_op_id_led_init_resumes, Run::law_clear_mta_resumes};

        self.lemma_start();
        reveal(Run::initialize_receiver);
    }

    /// `initialize_transmitter` only adds to a run, and resumes with more answers.
    pub broadcast proof fn law_initialize_transmitter_resumes(self)
        ensures
            (#[trigger] self.initialize_transmitter()).continues(self),
            forall|more: Seq<Reply>|
                (#[trigger] self.fed(more).initialize_transmitter()).resumes(
                    self.initialize_transmitter(),
                    more,
                ),
    {
        broadcast use group_resumes;

        self.lemma_start();
        reveal(Run::initialize_transmitter);
    }

    /// `init_hw` only adds to a run, and resumes with more answers.
    pub broadcast proof fn law_init_hw_resumes(self)
        ensures
            (#[trigger] self.init_hw()).0.continues(self),
            forall|more: Seq<Reply>|
                agree(#[trigger] self.fed(more).init_hw(), self.init_hw(), more),
    {
        broadcast use {
            group_resumes,
            Run::law_initialize_hw_bits_resumes,
            Run::law_initialize_receiver_resumes,
            Run::law_op_setup_link_resumes,
            Run::law_initialize_transmitter_resumes,
            Run::law_clear_counters_resumes,
        };

        self.lemma_start();
        reveal(Run::init_hw);
    }

    /// `bus_info` only adds to a run, and resumes with more answers.
    pub broadcast proof fn law_bus_info_resumes(self)
        ensures
            (#[trigger] self.bus_info()).0.continues(self),
            forall|more: Seq<Reply>|
                agree(#[trigger] self.fed(more).bus_info(), self.bus_info(), more),
    {
        broadcast use group_resumes;

        self.lemma_start();
        reveal(Run::bus_info);
    }
}

} // verus!
