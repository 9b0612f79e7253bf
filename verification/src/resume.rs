//! What more answers change: a run that has stalled is gone through again,
//! from the same start, with more answers at hand. It then records what it had
//! recorded before and goes on from there; a run that had not stalled is not
//! affected.

use vstd::prelude::*;
use crate::hw::Hw;
use crate::io::{group_continues, Action, Call, Reply, Run};

verus! {

/// Whether `longer`, the outcome of a function with the answers of `more`
/// appended, agrees with `shorter`, the outcome without them.
pub open spec fn agree<T>(longer: (Run, T), shorter: (Run, T), more: Seq<Reply>) -> bool {
    if shorter.0.stalled {
        longer.0.covers(shorter.0)
    } else {
        longer == (shorter.0.fed(more), shorter.1)
    }
}

/// The same for an outcome with one more part.
pub open spec fn agree_3<T, U>(longer: (Run, T, U), shorter: (Run, T, U), more: Seq<Reply>) -> bool {
    if shorter.0.stalled {
        longer.0.covers(shorter.0)
    } else {
        longer == (shorter.0.fed(more), shorter.1, shorter.2)
    }
}

/// The same for an outcome with two more parts.
pub open spec fn agree_4<T, U, V>(
    longer: (Run, T, U, V),
    shorter: (Run, T, U, V),
    more: Seq<Reply>,
) -> bool {
    if shorter.0.stalled {
        longer.0.covers(shorter.0)
    } else {
        longer == (shorter.0.fed(more), shorter.1, shorter.2, shorter.3)
    }
}

impl Run {
    /// The run with more answers at hand.
    #[verifier::opaque]
    pub open spec fn fed(self, more: Seq<Reply>) -> Run {
        Run { replies: self.replies + more, ..self }
    }

    /// Whether this run has recorded what `shorter` has, and perhaps more.
    #[verifier::opaque]
    pub open spec fn covers(self, shorter: Run) -> bool {
        shorter.trace.is_prefix_of(self.trace)
    }

    /// Whether this run, with the answers of `more` appended, agrees with
    /// `shorter`, the run without them.
    pub open spec fn resumes(self, shorter: Run, more: Seq<Reply>) -> bool {
        if shorter.stalled {
            self.covers(shorter)
        } else {
            self == shorter.fed(more)
        }
    }

    pub broadcast proof fn lemma_act_resumes(self, action: Action, more: Seq<Reply>)
        ensures
            (#[trigger] self.fed(more).act(action)).resumes(self.act(action), more),
    {
        reveal(Run::fed);
        reveal(Run::covers);
        reveal(Run::act);
    }

    pub broadcast proof fn lemma_ask_resumes(self, action: Action, more: Seq<Reply>)
        ensures
            agree(#[trigger] self.fed(more).ask(action), self.ask(action), more),
    {
        reveal(Run::fed);
        reveal(Run::covers);
        reveal(Run::ask);
    }

    pub broadcast proof fn lemma_call_resumes(self, call: Call, more: Seq<Reply>)
        ensures
            agree(#[trigger] self.fed(more).call(call), self.call(call), more),
    {
        reveal(Run::fed);
        reveal(Run::covers);
        reveal(Run::call);
    }

    pub broadcast proof fn lemma_phy_type_resumes(self, id: u32, more: Seq<Reply>)
        ensures
            agree(#[trigger] self.fed(more).phy_type_from_id(id), self.phy_type_from_id(id), more),
    {
        reveal(Run::fed);
        reveal(Run::covers);
        reveal(Run::phy_type_from_id);
    }

    pub broadcast proof fn lemma_with_hw_resumes(self, hw: Hw, more: Seq<Reply>)
        ensures
            #[trigger] self.fed(more).with_hw(hw) == self.with_hw(hw).fed(more),
    {
        reveal(Run::fed);
    }

    pub broadcast proof fn lemma_with_hw_continues(self, hw: Hw)
        requires
            hw.mac.mac_type == self.hw.mac.mac_type,
            hw.device_id == self.hw.device_id,
        ensures
            (#[trigger] self.with_hw(hw)).continues(self),
    {
        reveal(Run::continues);
        reveal(Run::device_is);
    }

    pub broadcast proof fn lemma_fed_keeps(self, more: Seq<Reply>)
        ensures
            (#[trigger] self.fed(more)).hw == self.hw,
            self.fed(more).stalled == self.stalled,
            self.stalled ==> self.fed(more).covers(self),
            self.fed(more).reached_from(self.fed(more)),
    {
        self.fed(more).lemma_start();
        reveal(Run::fed);
        reveal(Run::covers);
    }

    pub broadcast proof fn lemma_covers_later(a: Run, b: Run, c: Run)
        requires
            #[trigger] b.covers(a),
            #[trigger] c.continues(b),
        ensures
            c.covers(a),
    {
        reveal(Run::covers);
        reveal(Run::continues);
        assert(a.trace =~= c.trace.take(a.trace.len() as int)) by {
            assert(b.trace =~= c.trace.take(b.trace.len() as int));
            assert(a.trace =~= b.trace.take(a.trace.len() as int));
        }
    }

    pub broadcast proof fn lemma_covers_stalled(a: Run, later: Run, b: Run)
        requires
            #[trigger] b.covers(a),
            #[trigger] later.continues(a),
            a.stalled,
        ensures
            b.covers(later),
    {
        reveal(Run::covers);
        reveal(Run::continues);
    }

    pub broadcast proof fn lemma_stays_stalled(a: Run, b: Run)
        requires
            #[trigger] b.continues(a),
        ensures
            a.stalled ==> b.stalled,
    {
        reveal(Run::continues);
    }
}

pub broadcast group group_resumes {
    group_continues,
    Run::lemma_act_resumes,
    Run::lemma_ask_resumes,
    Run::lemma_call_resumes,
    Run::lemma_phy_type_resumes,
    Run::lemma_with_hw_resumes,
    Run::lemma_with_hw_continues,
    Run::lemma_fed_keeps,
    Run::lemma_covers_later,
    Run::lemma_covers_stalled,
    Run::lemma_stays_stalled,
}

} // verus!
