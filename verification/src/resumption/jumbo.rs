//! Resuming: the jumbo frame workaround.

use vstd::prelude::*;
use crate::error::AdResult;
use crate::io::{Reply, Run};
use crate::jumbo::JumboSettings;
use crate::resume::{agree, agree_3, group_resumes};

verus! {

impl Run {
    /// `jumbo_kmrn` only adds to a run, and resumes with more answers.
    pub broadcast proof fn law_jumbo_kmrn_resumes(self, j: JumboSettings)
        ensures
            (#[trigger] self.jumbo_kmrn(j)).0.continues(self),
            forall|more: Seq<Reply>|
                agree_3(#[trigger] self.fed(more).jumbo_kmrn(j), self.jumbo_kmrn(j), more),
    {
        broadcast use group_resumes;

        self.lemma_start();
        reveal(Run::jumbo_kmrn);
    }

    /// `jumbo_phy_gap` only adds to a run, and resumes with more answers.
    pub broadcast proof fn law_jumbo_phy_gap_resumes(self, j: JumboSettings, data: u16)
        ensures
            (#[trigger] self.jumbo_phy_gap(j, data)).0.continues(self),
            forall|more: Seq<Reply>|
                agree(
                    #[trigger] self.fed(more).jumbo_phy_gap(j, data),
                    self.jumbo_phy_gap(j, data),
                    more,
                ),
    {
        broadcast use group_resumes;

        self.lemma_start();
        reveal(Run::jumbo_phy_gap);
    }

    /// `jumbo_phy` only adds to a run, and resumes with more answers.
    pub broadcast proof fn law_jumbo_phy_resumes(self, j: JumboSettings, data: u16)
        ensures
            (#[trigger] self.jumbo_phy(j, data)).0.continues(self),
            forall|more: Seq<Reply>|
                agree(#[trigger] self.fed(more).jumbo_phy(j, data), self.jumbo_phy(j, data), more),
    {
        broadcast use {group_resumes, Run::law_jumbo_phy_gap_resumes};

        self.lemma_start();
        reveal(Run::jumbo_phy);
    }

    /// `jumbo_mac` only adds to a run, and resumes with more answers.
    pub broadcast proof fn law_jumbo_mac_resumes(self, enable: bool)
        ensures
            (#[trigger] self.jumbo_mac(enable)).continues(self),
            forall|more: Seq<Reply>|
                (#[trigger] self.fed(more).jumbo_mac(enable)).resumes(
                    self.jumbo_mac(enable),
                    more,
                ),
    {
        broadcast use group_resumes;

        self.lemma_start();
        reveal(Run::jumbo_mac);
    }

    /// `reenable_rx_path` only adds to a run, and resumes with more answers.
    pub broadcast proof fn law_reenable_rx_path_resumes(self, rx: u16, res: AdResult)
        ensures
            (#[trigger] self.reenable_rx_path(rx, res)).0.continues(self),
            forall|more: Seq<Reply>|
                agree(
                    #[trigger] self.fed(more).reenable_rx_path(rx, res),
                    self.reenable_rx_path(rx, res),
                    more,
                ),
    {
        broadcast use group_resumes;

        self.lemma_start();
        reveal(Run::reenable_rx_path);
    }

    /// `jumbo_workaround` only adds to a run, and resumes with more answers.
    pub broadcast proof fn law_jumbo_workaround_resumes(self, enable: bool)
        ensures
            (#[trigger] self.jumbo_workaround(enable)).0.continues(self),
            forall|more: Seq<Reply>|
                agree(
                    #[trigger] self.fed(more).jumbo_workaround(enable),
                    self.jumbo_workaround(enable),
                    more,
                ),
    {
        broadcast use {
            group_resumes,
            Run::law_jumbo_mac_resumes,
            Run::law_jumbo_kmrn_resumes,
            Run::law_jumbo_phy_resumes,
            Run::law_reenable_rx_path_resumes,
        };

        self.lemma_start();
        reveal(Run::jumbo_workaround);
    }
}

} // verus!
