//! What the called functions leave alone. A function of the rest of the driver
//! may hand back another software state than it was given; a law on what
//! becomes of a part of the state holds of runs in which the called functions
//! leave that part alone.

use vstd::prelude::*;
use crate::consts::{E1000_CTRL_EXT, E1000_FWSM};
use crate::hw::{Hw, UlpState};
use crate::io::{group_continues, questions, Action, Call, Reply, Run};
use crate::link::PhyAccess;

verus! {

/// A part of the software state.
pub enum Part {
    /// Whether the link status is to be fetched.
    LinkStatus,
    /// What is known of the ultra low power mode.
    Ulp,
}

impl Part {
    /// What the part is in a software state, as a number.
    pub open spec fn of(self, hw: Hw) -> int {
        match self {
            Part::LinkStatus => if hw.mac.get_link_status {
                1
            } else {
                0
            },
            Part::Ulp => match hw.dev_spec.ulp_state {
                UlpState::Unknown => 0,
                UlpState::Off => 1,
                UlpState::On => 2,
            },
        }
    }
}

impl Run {
    /// Whether every function that the run has called handed the part back as
    /// it was given it. Each operation that asks has one answer, in order, but
    /// for the last one if the run has stalled.
    #[verifier::opaque]
    pub open spec fn calls_keep(self, part: Part) -> bool {
        &&& self.used + self.waiting() == questions(self.trace)
        &&& forall|i: int|
            0 <= i < self.trace.len() && questions(self.trace.take(i)) < self.replies.len() ==> (
            match (#[trigger] self.trace[i], self.replies[questions(self.trace.take(i))]) {
                (Action::Call(_, hw), Reply::Returned(r)) => part.of(r.hw) == part.of(*hw),
                _ => true,
            })
    }

    /// What held of all calls held of the earlier ones.
    pub proof fn lemma_kept_before(self, earlier: Run, part: Part)
        requires
            self.continues(earlier),
            self.calls_keep(part),
        ensures
            earlier.calls_keep(part),
    {
        reveal(Run::continues);
        reveal(Run::calls_keep);
        self.lemma_kept(earlier);
        assert forall|i: int|
            0 <= i < earlier.trace.len() && questions(earlier.trace.take(i))
                < earlier.replies.len() implies (match (
            #[trigger] earlier.trace[i],
            earlier.replies[questions(earlier.trace.take(i))],
        ) {
            (Action::Call(_, hw), Reply::Returned(r)) => part.of(r.hw) == part.of(*hw),
            _ => true,
        }) by {
            assert(earlier.trace.take(i) =~= self.trace.take(i));
            assert(self.trace[i] == earlier.trace[i]);
        }
    }

    pub broadcast proof fn lemma_act_keeps(self, action: Action, part: Part)
        requires
            !action.asks(),
        ensures
            #[trigger] self.act(action).calls_keep(part) ==> self.calls_keep(part),
    {
        broadcast use group_continues;

        if self.act(action).calls_keep(part) {
            self.act(action).lemma_kept_before(self, part);
        }
    }

    pub broadcast proof fn lemma_ask_keeps(self, action: Action, part: Part)
        requires
            action.asks(),
        ensures
            #[trigger] self.ask(action).0.calls_keep(part) ==> self.calls_keep(part),
    {
        broadcast use group_continues;

        if self.ask(action).0.calls_keep(part) {
            self.ask(action).0.lemma_kept_before(self, part);
        }
    }

    pub broadcast proof fn lemma_call_keeps(self, call: Call, part: Part)
        ensures
            #[trigger] self.call(call).0.calls_keep(part) ==> {
                &&& self.calls_keep(part)
                &&& part.of(self.call(call).0.hw) == part.of(self.hw)
            },
    {
        broadcast use group_continues;

        let s = self.call(call).0;
        if s.calls_keep(part) {
            s.lemma_kept_before(self, part);
            reveal(Run::call);
            reveal(Run::calls_keep);
            if !self.stalled && !s.stalled {
                let i = self.trace.len() as int;
                assert(s.trace.take(i) =~= self.trace);
                assert(s.trace[i] is Call);
            }
        }
    }

    pub broadcast proof fn lemma_with_hw_keeps(self, hw: Hw, part: Part)
        ensures
            #[trigger] self.with_hw(hw).calls_keep(part) == self.calls_keep(part),
    {
        reveal(Run::calls_keep);
    }
}

pub broadcast group group_keeps {
    group_continues,
    Run::lemma_act_keeps,
    Run::lemma_ask_keeps,
    Run::lemma_call_keeps,
    Run::lemma_with_hw_keeps,
}

impl Run {
    pub broadcast proof fn lemma_access_emi_keeps(
        self,
        address: u16,
        data: u16,
        read: bool,
        part: Part,
    )
        ensures
            #[trigger] self.access_emi(address, data, read).0.calls_keep(part) ==> {
                &&& self.calls_keep(part)
                &&& part.of(self.access_emi(address, data, read).0.hw) == part.of(self.hw)
            },
    {
        broadcast use group_keeps;

        reveal(Run::access_emi);
    }

    pub broadcast proof fn lemma_link_up_info_keeps(self, speed: u16, duplex: u16, part: Part)
        ensures
            #[trigger] self.link_up_info(speed, duplex).0.calls_keep(part) ==> {
                &&& self.calls_keep(part)
                &&& part.of(self.link_up_info(speed, duplex).0.hw) == part.of(self.hw)
            },
    {
        broadcast use group_keeps;

        reveal(Run::link_up_info);
    }

    pub broadcast proof fn lemma_op_link_up_info_keeps(self, speed: u16, duplex: u16, part: Part)
        ensures
            #[trigger] self.op_link_up_info(speed, duplex).0.calls_keep(part) ==> {
                &&& self.calls_keep(part)
                &&& part.of(self.op_link_up_info(speed, duplex).0.hw) == part.of(self.hw)
            },
    {
        broadcast use {group_keeps, Run::lemma_link_up_info_keeps};

        reveal(Run::op_link_up_info);
    }

    pub broadcast proof fn lemma_program_ltr_keeps(self, ltrv: u32, high_water: u32, part: Part)
        ensures
            #[trigger] self.program_ltr(ltrv, high_water).calls_keep(part) ==> {
                &&& self.calls_keep(part)
                &&& part.of(self.program_ltr(ltrv, high_water).hw) == part.of(self.hw)
            },
    {
        broadcast use group_keeps;

        reveal(Run::program_ltr);
    }

    pub broadcast proof fn lemma_platform_pm_keeps(self, link: bool, part: Part)
        ensures
            #[trigger] self.platform_pm(link).0.calls_keep(part) ==> {
                &&& self.calls_keep(part)
                &&& part.of(self.platform_pm(link).0.hw) == part.of(self.hw)
            },
    {
        broadcast use {
            group_keeps,
            Run::lemma_program_ltr_keeps,
            Run::lemma_op_link_up_info_keeps,
        };

        reveal(Run::platform_pm);
    }

    pub broadcast proof fn lemma_k1_gigabit_keeps(self, fextnvm6: u32, part: Part)
        ensures
            #[trigger] self.k1_gigabit(fextnvm6).0.calls_keep(part) ==> {
                &&& self.calls_keep(part)
                &&& part.of(self.k1_gigabit(fextnvm6).0.hw) == part.of(self.hw)
            },
    {
        broadcast use group_keeps;

        reveal(Run::k1_gigabit);
    }

    pub broadcast proof fn lemma_k1_slow_keeps(
        self,
        link: bool,
        fextnvm6: u32,
        status: u32,
        part: Part,
    )
        ensures
            #[trigger] self.k1_slow(link, fextnvm6, status).0.calls_keep(part) ==> {
                &&& self.calls_keep(part)
                &&& part.of(self.k1_slow(link, fextnvm6, status).0.hw) == part.of(self.hw)
            },
    {
        broadcast use group_keeps;

        reveal(Run::k1_slow);
    }

    pub broadcast proof fn lemma_k1_workaround_keeps(self, link: bool, part: Part)
        ensures
            #[trigger] self.k1_workaround(link).0.calls_keep(part) ==> {
                &&& self.calls_keep(part)
                &&& part.of(self.k1_workaround(link).0.hw) == part.of(self.hw)
            },
    {
        broadcast use {group_keeps, Run::lemma_k1_gigabit_keeps, Run::lemma_k1_slow_keeps};

        reveal(Run::k1_workaround);
    }

    pub broadcast proof fn lemma_with_lp_ability_keeps(self, ability: u16, part: Part)
        ensures
            #[trigger] self.with_lp_ability(ability).calls_keep(part) ==> {
                &&& self.calls_keep(part)
                &&& part.of(self.with_lp_ability(ability).hw) == part.of(self.hw)
            },
    {
        broadcast use group_keeps;

        reveal(Run::with_lp_ability);
    }

    pub broadcast proof fn lemma_negotiate_eee_keeps(self, lpi_ctrl: u16, part: Part)
        ensures
            #[trigger] self.negotiate_eee(lpi_ctrl).0.calls_keep(part) ==> {
                &&& self.calls_keep(part)
                &&& part.of(self.negotiate_eee(lpi_ctrl).0.hw) == part.of(self.hw)
            },
    {
        broadcast use {group_keeps, Run::lemma_access_emi_keeps, Run::lemma_with_lp_ability_keeps};

        reveal(Run::negotiate_eee);
    }

    pub broadcast proof fn lemma_finish_eee_keeps(self, lpi_ctrl: u16, data: u16, part: Part)
        ensures
            #[trigger] self.finish_eee(lpi_ctrl, data).0.calls_keep(part) ==> {
                &&& self.calls_keep(part)
                &&& part.of(self.finish_eee(lpi_ctrl, data).0.hw) == part.of(self.hw)
            },
    {
        broadcast use {group_keeps, Run::lemma_access_emi_keeps};

        reveal(Run::finish_eee);
    }

    pub broadcast proof fn lemma_set_eee_keeps(self, part: Part)
        ensures
            #[trigger] self.set_eee().0.calls_keep(part) ==> {
                &&& self.calls_keep(part)
                &&& part.of(self.set_eee().0.hw) == part.of(self.hw)
            },
    {
        broadcast use {group_keeps, Run::lemma_negotiate_eee_keeps, Run::lemma_finish_eee_keeps};

        reveal(Run::set_eee);
    }

    pub broadcast proof fn lemma_rewrite_phy_field_keeps(
        self,
        f: PhyAccess,
        reg: u32,
        before: u16,
        mask: u16,
        value: u16,
        part: Part,
    )
        ensures
            #[trigger] self.rewrite_phy_field(f, reg, before, mask, value).0.calls_keep(part) ==> {
                &&& self.calls_keep(part)
                &&& part.of(self.rewrite_phy_field(f, reg, before, mask, value).0.hw) == part.of(self.hw)
            },
    {
        broadcast use group_keeps;

        reveal(Run::rewrite_phy_field);
    }

    pub broadcast proof fn lemma_tune_pll_keeps(self, f: PhyAccess, speed: u16, part: Part)
        ensures
            #[trigger] self.tune_pll(f, speed).calls_keep(part) ==> {
                &&& self.calls_keep(part)
                &&& part.of(self.tune_pll(f, speed).hw) == part.of(self.hw)
            },
    {
        broadcast use {group_keeps, Run::lemma_rewrite_phy_field_keeps};

        reveal(Run::tune_pll);
    }

    pub broadcast proof fn lemma_tune_ptr_gap_keeps(self, f: PhyAccess, speed: u16, part: Part)
        ensures
            #[trigger] self.tune_ptr_gap(f, speed).0.calls_keep(part) ==> {
                &&& self.calls_keep(part)
                &&& part.of(self.tune_ptr_gap(f, speed).0.hw) == part.of(self.hw)
            },
    {
        broadcast use group_keeps;

        reveal(Run::tune_ptr_gap);
    }

    pub broadcast proof fn lemma_tune_link_keeps(self, f: PhyAccess, part: Part)
        ensures
            #[trigger] self.tune_link(f).0.calls_keep(part) ==> {
                &&& self.calls_keep(part)
                &&& part.of(self.tune_link(f).0.hw) == part.of(self.hw)
            },
    {
        broadcast use {
            group_keeps,
            Run::lemma_access_emi_keeps,
            Run::lemma_tune_pll_keeps,
            Run::lemma_tune_ptr_gap_keeps,
        };

        reveal(Run::tune_link);
    }

    pub broadcast proof fn lemma_set_beacon_keeps(self, part: Part)
        ensures
            #[trigger] self.set_beacon().calls_keep(part) ==> {
                &&& self.calls_keep(part)
                &&& part.of(self.set_beacon().hw) == part.of(self.hw)
            },
    {
        broadcast use group_keeps;

        reveal(Run::set_beacon);
    }

    pub broadcast proof fn lemma_settle_k1_off_keeps(self, part: Part)
        ensures
            #[trigger] self.settle_k1_off().calls_keep(part) ==> {
                &&& self.calls_keep(part)
                &&& part.of(self.settle_k1_off().hw) == part.of(self.hw)
            },
    {
        broadcast use group_keeps;

        reveal(Run::settle_k1_off);
    }

    pub broadcast proof fn lemma_check_either_way_keeps(self, f: PhyAccess, link: bool, part: Part)
        ensures
            #[trigger] self.check_either_way(f, link).0.calls_keep(part) ==> {
                &&& self.calls_keep(part)
                &&& part.of(self.check_either_way(f, link).0.hw) == part.of(self.hw)
            },
    {
        broadcast use {
            group_keeps,
            Run::lemma_tune_link_keeps,
            Run::lemma_set_beacon_keeps,
            Run::lemma_k1_workaround_keeps,
            Run::lemma_platform_pm_keeps,
            Run::lemma_with_lp_ability_keeps,
            Run::lemma_settle_k1_off_keeps,
        };

        reveal(Run::check_either_way);
    }

    pub broadcast proof fn lemma_set_preambles_keeps(self, f: PhyAccess, part: Part)
        ensures
            #[trigger] self.set_preambles(f).calls_keep(part) ==> {
                &&& self.calls_keep(part)
                &&& part.of(self.set_preambles(f).hw) == part.of(self.hw)
            },
    {
        broadcast use group_keeps;

        reveal(Run::set_preambles);
    }

    pub broadcast proof fn lemma_finish_link_keeps(self, part: Part)
        ensures
            #[trigger] self.finish_link().0.calls_keep(part) ==> {
                &&& self.calls_keep(part)
                &&& part.of(self.finish_link().0.hw) == part.of(self.hw)
            },
    {
        broadcast use {group_keeps, Run::lemma_set_eee_keeps};

        reveal(Run::finish_link);
    }

    pub broadcast proof fn lemma_poll_lanphypc_keeps(self, tries: int, part: Part)
        ensures
            #[trigger] self.poll_lanphypc(tries).calls_keep(part) ==> {
                &&& self.calls_keep(part)
                &&& part.of(self.poll_lanphypc(tries).hw) == part.of(self.hw)
            },
        decreases tries,
    {
        broadcast use group_keeps;

        if tries > 1 {
            let s = self.msec_delay(5).read_register(E1000_CTRL_EXT).0;
            s.lemma_poll_lanphypc_keeps(tries - 1, part);
        }
    }

    pub broadcast proof fn lemma_toggle_lanphypc_keeps(self, part: Part)
        ensures
            #[trigger] self.toggle_lanphypc().calls_keep(part) ==> {
                &&& self.calls_keep(part)
                &&& part.of(self.toggle_lanphypc().hw) == part.of(self.hw)
            },
    {
        broadcast use {group_keeps, Run::lemma_poll_lanphypc_keeps};

        reveal(Run::toggle_lanphypc);
    }

    pub broadcast proof fn lemma_poll_ulp_keeps(self, tries: int, part: Part)
        ensures
            #[trigger] self.poll_ulp(tries).0.calls_keep(part) ==> {
                &&& self.calls_keep(part)
                &&& part.of(self.poll_ulp(tries).0.hw) == part.of(self.hw)
            },
        decreases tries,
    {
        broadcast use group_keeps;

        if tries > 1 {
            let s = self.read_register(E1000_FWSM).0.msec_delay(10);
            s.lemma_poll_ulp_keeps(tries - 1, part);
        }
    }

    pub broadcast proof fn lemma_release_from_ulp_keeps(self, force: bool, part: Part)
        ensures
            #[trigger] self.release_from_ulp(force).0.calls_keep(part) ==> {
                &&& self.calls_keep(part)
                &&& part.of(self.release_from_ulp(force).0.hw) == part.of(self.hw)
            },
    {
        broadcast use group_keeps;

        reveal(Run::release_from_ulp);
    }

    pub broadcast proof fn lemma_reach_smb_ctrl_keeps(self, part: Part)
        ensures
            #[trigger] self.reach_smb_ctrl().0.calls_keep(part) ==> {
                &&& self.calls_keep(part)
                &&& part.of(self.reach_smb_ctrl().0.hw) == part.of(self.hw)
            },
    {
        broadcast use group_keeps;

        reveal(Run::reach_smb_ctrl);
    }

    pub broadcast proof fn lemma_reconfigure_ulp_keeps(self, reg: u16, part: Part)
        ensures
            #[trigger] self.reconfigure_ulp(reg).0.calls_keep(part) ==> {
                &&& self.calls_keep(part)
                &&& part.of(self.reconfigure_ulp(reg).0.hw) == part.of(self.hw)
            },
    {
        broadcast use group_keeps;

        reveal(Run::reconfigure_ulp);
    }

    pub broadcast proof fn lemma_clear_ulp_in_phy_keeps(self, part: Part)
        ensures
            #[trigger] self.clear_ulp_in_phy().0.calls_keep(part) ==> {
                &&& self.calls_keep(part)
                &&& part.of(self.clear_ulp_in_phy().0.hw) == part.of(self.hw)
            },
    {
        broadcast use {
            group_keeps,
            Run::lemma_reach_smb_ctrl_keeps,
            Run::lemma_reconfigure_ulp_keeps,
        };

        reveal(Run::clear_ulp_in_phy);
    }
}

} // verus!
