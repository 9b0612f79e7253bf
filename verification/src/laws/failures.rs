//! When the driver functions fail: exactly if something that they called did.

use vstd::prelude::*;
use crate::io::{Action, Call, Reply, Run};
use crate::jumbo::JumboSettings;

verus! {

/// Whether no function that was called since `start` has failed.
#[verifier::opaque]
pub open spec fn clean(end: Run, start: Run) -> bool {
    forall|i: int|
        start.used <= i < end.used ==> !((#[trigger] end.replies[i]) matches Reply::Returned(r)
            && r.result is Err)
}

broadcast proof fn lemma_act(start: Run, mid: Run, action: Action)
    ensures
        mid.used <= (#[trigger] mid.act(action)).used,
        clean(mid.act(action), start) == #[trigger] clean(mid, start),
{
    reveal(Run::act);
    reveal(clean);
}

broadcast proof fn lemma_ask(start: Run, mid: Run, action: Action)
    ensures
        mid.used <= (#[trigger] mid.ask(action)).0.used,
        clean(mid.ask(action).0, start) == #[trigger] clean(mid, start),
{
    reveal(Run::ask);
    reveal(clean);
    let end = mid.ask(action).0;
    if end.used > mid.used {
        assert(end.replies[mid.used as int] is Value);
    }
    assert forall|i: int| start.used <= i < end.used && clean(mid, start) implies !((
    #[trigger] end.replies[i]) matches Reply::Returned(r) && r.result is Err) by {
        if i < mid.used {
            assert(mid.replies[i] == end.replies[i]);
        }
    }
    assert forall|i: int| start.used <= i < mid.used && clean(end, start) implies !((
    #[trigger] mid.replies[i]) matches Reply::Returned(r) && r.result is Err) by {
        assert(mid.replies[i] == end.replies[i]);
    }
}

broadcast proof fn lemma_call(start: Run, mid: Run, call: Call)
    ensures
        start.used <= mid.used ==> {
            let end = (#[trigger] mid.call(call)).0;
            let ok = mid.call(call).1.result is Ok;
            mid.used <= end.used && clean(end, start) == (#[trigger] clean(mid, start) && ok)
        },
{
    reveal(Run::call);
    reveal(clean);
    let (end, a) = mid.call(call);
    if start.used <= mid.used {
        if end.used > mid.used {
            assert(end.replies[mid.used as int] == mid.replies[mid.used as int]);
        }
        assert forall|i: int| start.used <= i < mid.used && clean(end, start) implies !((
        #[trigger] mid.replies[i]) matches Reply::Returned(r) && r.result is Err) by {
            assert(mid.replies[i] == end.replies[i]);
        }
        assert forall|i: int|
            start.used <= i < end.used && clean(mid, start) && a.result is Ok implies !((
        #[trigger] end.replies[i]) matches Reply::Returned(r) && r.result is Err) by {
            if i < mid.used {
                assert(mid.replies[i] == end.replies[i]);
            }
        }
    }
}

proof fn lemma_clean_start(start: Run)
    ensures
        clean(start, start),
{
    reveal(clean);
}

broadcast proof fn lemma_emi(start: Run, mid: Run, address: u16, data: u16, read: bool)
    ensures
        start.used <= mid.used ==> {
            let end = (#[trigger] mid.access_emi(address, data, read)).0;
            let ok = mid.access_emi(address, data, read).1 is Ok;
            mid.used <= end.used && clean(end, start) == (#[trigger] clean(mid, start) && ok)
        },
{
    broadcast use {lemma_act, lemma_ask, lemma_call};

    let was = clean(mid, start);
    assert(was == clean(mid, start));
    reveal(Run::access_emi);
}

broadcast proof fn lemma_lp_ability(start: Run, mid: Run, ability: u16)
    ensures
        mid.used <= (#[trigger] mid.with_lp_ability(ability)).used,
        clean(mid.with_lp_ability(ability), start) == #[trigger] clean(mid, start),
{
    reveal(Run::with_lp_ability);
    reveal(clean);
}

broadcast proof fn lemma_negotiate_eee(start: Run, mid: Run, ctrl: u16)
    ensures
        start.used <= mid.used ==> {
            let end = (#[trigger] mid.negotiate_eee(ctrl)).0;
            let ok = mid.negotiate_eee(ctrl).1 is Ok;
            mid.used <= end.used && clean(end, start) == (#[trigger] clean(mid, start) && ok)
        },
{
    broadcast use {lemma_act, lemma_ask, lemma_call, lemma_emi, lemma_lp_ability};

    let was = clean(mid, start);
    assert(was == clean(mid, start));
    reveal(Run::negotiate_eee);
}

broadcast proof fn lemma_finish_eee(start: Run, mid: Run, ctrl: u16, data: u16)
    ensures
        start.used <= mid.used ==> {
            let end = (#[trigger] mid.finish_eee(ctrl, data)).0;
            let ok = mid.finish_eee(ctrl, data).1 is Ok;
            mid.used <= end.used && clean(end, start) == (#[trigger] clean(mid, start) && ok)
        },
{
    broadcast use {lemma_act, lemma_ask, lemma_call, lemma_emi};

    let was = clean(mid, start);
    assert(was == clean(mid, start));
    reveal(Run::finish_eee);
}

broadcast proof fn lemma_set_eee(start: Run, mid: Run)
    ensures
        start.used <= mid.used ==> {
            let end = (#[trigger] mid.set_eee()).0;
            let ok = mid.set_eee().1 is Ok;
            mid.used <= end.used && clean(end, start) == (#[trigger] clean(mid, start) && ok)
        },
{
    broadcast use {lemma_act, lemma_ask, lemma_call, lemma_emi, lemma_negotiate_eee, lemma_finish_eee};

    let was = clean(mid, start);
    assert(was == clean(mid, start));
    reveal(Run::set_eee);
}

broadcast proof fn lemma_k1_gigabit(start: Run, mid: Run, fextnvm6: u32)
    ensures
        start.used <= mid.used ==> {
            let end = (#[trigger] mid.k1_gigabit(fextnvm6)).0;
            let ok = mid.k1_gigabit(fextnvm6).1 is Ok;
            mid.used <= end.used && clean(end, start) == (#[trigger] clean(mid, start) && ok)
        },
{
    broadcast use {lemma_act, lemma_ask, lemma_call};

    let was = clean(mid, start);
    assert(was == clean(mid, start));
    reveal(Run::k1_gigabit);
}

broadcast proof fn lemma_setup_copper_link(start: Run, mid: Run)
    ensures
        start.used <= mid.used ==> {
            let end = (#[trigger] mid.setup_copper_link()).0;
            let ok = mid.setup_copper_link().1 is Ok;
            mid.used <= end.used && clean(end, start) == (#[trigger] clean(mid, start) && ok)
        },
{
    broadcast use {lemma_act, lemma_ask, lemma_call};

    let was = clean(mid, start);
    assert(was == clean(mid, start));
    reveal(Run::setup_copper_link);
}

broadcast proof fn lemma_jumbo_kmrn(start: Run, mid: Run, j: JumboSettings)
    ensures
        start.used <= mid.used ==> {
            let end = (#[trigger] mid.jumbo_kmrn(j)).0;
            let ok = mid.jumbo_kmrn(j).1 is Ok;
            mid.used <= end.used && clean(end, start) == (#[trigger] clean(mid, start) && ok)
        },
{
    broadcast use {lemma_act, lemma_ask, lemma_call};

    let was = clean(mid, start);
    assert(was == clean(mid, start));
    reveal(Run::jumbo_kmrn);
}

broadcast proof fn lemma_jumbo_phy_gap(start: Run, mid: Run, j: JumboSettings, data: u16)
    ensures
        start.used <= mid.used ==> {
            let end = (#[trigger] mid.jumbo_phy_gap(j, data)).0;
            let ok = mid.jumbo_phy_gap(j, data).1 is Ok;
            mid.used <= end.used && clean(end, start) == (#[trigger] clean(mid, start) && ok)
        },
{
    broadcast use {lemma_act, lemma_ask, lemma_call};

    let was = clean(mid, start);
    assert(was == clean(mid, start));
    reveal(Run::jumbo_phy_gap);
}

broadcast proof fn lemma_jumbo_phy(start: Run, mid: Run, j: JumboSettings, data: u16)
    ensures
        start.used <= mid.used ==> {
            let end = (#[trigger] mid.jumbo_phy(j, data)).0;
            let ok = mid.jumbo_phy(j, data).1 is Ok;
            mid.used <= end.used && clean(end, start) == (#[trigger] clean(mid, start) && ok)
        },
{
    broadcast use {lemma_act, lemma_ask, lemma_call, lemma_jumbo_phy_gap};

    let was = clean(mid, start);
    assert(was == clean(mid, start));
    reveal(Run::jumbo_phy);
}

broadcast proof fn lemma_jumbo(start: Run, mid: Run, enable: bool)
    ensures
        start.used <= mid.used ==> {
            let end = (#[trigger] mid.jumbo_workaround(enable)).0;
            let ok = mid.jumbo_workaround(enable).1 is Ok;
            mid.used <= end.used && clean(end, start) == (#[trigger] clean(mid, start) && ok)
        },
{
    broadcast use {lemma_act, lemma_ask, lemma_call, lemma_jumbo_kmrn, lemma_jumbo_phy};

    let was = clean(mid, start);
    assert(was == clean(mid, start));
    reveal(Run::jumbo_workaround);
    reveal(Run::jumbo_mac);
    reveal(Run::reenable_rx_path);
}

proof fn lemma_config_entries(
    start: Run,
    mid: Run,
    word: int,
    i: int,
    count: int,
    page: u16,
    data: u16,
    addr: u16,
)
    ensures
        ({
            let (end, r) = mid.apply_config_entries(word, i, count, page, data, addr);
            start.used <= mid.used ==> mid.used <= end.used && clean(end, start) == (clean(
                mid,
                start,
            ) && r is Ok)
        }),
    decreases count - i,
{
    broadcast use {lemma_act, lemma_ask, lemma_call};

    let was = clean(mid, start);
    assert(was == clean(mid, start));
    if i < count {
        let (s, _, d) = mid.nvm_read_word((word + i * 2) as u16, data);
        let (t, _, a) = s.nvm_read_word((word + i * 2 + 1) as u16, addr);
        let reg = (a & 0x1F) | page;
        let u = t.phy_write_reg_locked(reg as u32, d).0;
        lemma_config_entries(start, t, word, i + 1, count, d, d, a);
        lemma_config_entries(start, u, word, i + 1, count, page, d, reg);
    }
}

/// Setting energy efficient Ethernet up succeeds exactly if nothing that it calls
/// fails: releasing the PHY, too.
pub proof fn law_eee_fails_with_calls(run: Run)
    ensures
        run.set_eee().1 is Ok <==> clean(run.set_eee().0, run),
{
    broadcast use {lemma_act, lemma_ask, lemma_call, lemma_set_eee};

    lemma_clean_start(run);
}

/// So does taking K1 out of use while the PLL clock is requested.
pub proof fn law_k1_fails_with_calls(run: Run, fextnvm6: u32)
    ensures
        run.k1_gigabit(fextnvm6).1 is Ok <==> clean(run.k1_gigabit(fextnvm6).0, run),
{
    broadcast use {lemma_act, lemma_ask, lemma_call, lemma_k1_gigabit};

    lemma_clean_start(run);
}

/// So does setting up the copper link.
pub proof fn law_copper_link_fails_with_calls(run: Run)
    ensures
        run.setup_copper_link().1 is Ok <==> clean(run.setup_copper_link().0, run),
{
    broadcast use {lemma_act, lemma_ask, lemma_call, lemma_setup_copper_link};

    lemma_clean_start(run);
}

/// So does the workaround for jumbo frames, either way.
pub proof fn law_jumbo_fails_with_calls(run: Run, enable: bool)
    ensures
        run.jumbo_workaround(enable).1 is Ok <==> clean(run.jumbo_workaround(enable).0, run),
{
    broadcast use {lemma_act, lemma_ask, lemma_call, lemma_jumbo};

    lemma_clean_start(run);
}

/// So does access to the extended management interface.
pub proof fn law_emi_fails_with_calls(run: Run, address: u16, data: u16, read: bool)
    ensures
        run.access_emi(address, data, read).1 is Ok <==> clean(run.access_emi(address, data, read).0, run),
{
    broadcast use {lemma_act, lemma_ask, lemma_call, lemma_emi};

    lemma_clean_start(run);
}

/// So does applying the extended configuration.
pub proof fn law_config_fails_with_calls(run: Run, word: int, count: int, page: u16)
    ensures
        ({
            let (end, r) = run.apply_config_entries(word, 0, count, page, 0, 0);
            r is Ok <==> clean(end, run)
        }),
{
    lemma_clean_start(run);
    lemma_config_entries(run, run, word, 0, count, page, 0, 0);
}

} // verus!
