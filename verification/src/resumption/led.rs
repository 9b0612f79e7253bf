//! Resuming: the LEDs.

use vstd::prelude::*;
use crate::io::{Reply, Run};
use crate::resume::{agree, group_resumes};

verus! {

impl Run {
    /// `id_led_init` only adds to a run, and resumes with more answers.
    pub broadcast proof fn law_id_led_init_resumes(self)
        ensures
            (#[trigger] self.id_led_init()).0.continues(self),
            forall|more: Seq<Reply>|
                agree(#[trigger] self.fed(more).id_led_init(), self.id_led_init(), more),
    {
        broadcast use {group_resumes, Run::law_op_led_settings_resumes};

        self.lemma_start();
        reveal(Run::id_led_init);
    }

    /// `set_leds` only adds to a run, and resumes with more answers.
    pub broadcast proof fn law_set_leds_resumes(self, ife: u16, ledctl: u32)
        ensures
            (#[trigger] self.set_leds(ife, ledctl)).0.continues(self),
            forall|more: Seq<Reply>|
                agree(
                    #[trigger] self.fed(more).set_leds(ife, ledctl),
                    self.set_leds(ife, ledctl),
                    more,
                ),
    {
        broadcast use group_resumes;

        self.lemma_start();
        reveal(Run::set_leds);
    }

    /// `set_phy_leds` only adds to a run, and resumes with more answers.
    pub broadcast proof fn law_set_phy_leds_resumes(self, data: u16)
        ensures
            (#[trigger] self.set_phy_leds(data)).0.continues(self),
            forall|more: Seq<Reply>|
                agree(#[trigger] self.fed(more).set_phy_leds(data), self.set_phy_leds(data), more),
    {
        broadcast use group_resumes;

        self.lemma_start();
        reveal(Run::set_phy_leds);
    }
}

} // verus!
