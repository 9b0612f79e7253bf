//! The workaround for jumbo frames: what it leaves in the registers.

use vstd::prelude::*;
use crate::bits::lemma_setup_bits;
use crate::error::Error;
use crate::events::{group_events, Port};
use crate::hw::MacType;
use crate::io::{Action, Call, Feature, Run};
use crate::jumbo::JumboSettings;
use crate::laws::link::lynx_point_on;
use crate::resume::group_resumes;

verus! {

/// What the workaround sets, or undoes.
pub open spec fn jumbo_is_set(end: Run, from: int, enable: bool) -> bool {
    &&& end.rewrote_by(from, Port::Kmrn, 0x10, 0x0F00, 0x0B00)
    &&& enable ==> {
        &&& end.rewrote(from, 0x5F04, 0x4000, 0x0003_8000)
        &&& end.did(from, Action::SetRegisterBit(0x100, 0x0400_0000))
        &&& end.rewrote_by(from, Port::Kmrn, 0x1, 0, 0x0001)
        &&& end.rewrote_by(from, Port::Plain, 0x6037, 0x0FE0, 0x06E0)
        &&& end.rewrote_by(from, Port::Plain, 0x6030, 0x2000, 0)
        &&& end.rewrote_by(from, Port::Plain, 0x6114, 0x0FFC, 0x007C)
        &&& end.called(from, Call::PhyWriteReg(0x6117, 0xF100))
        &&& end.rewrote_by(from, Port::Plain, 0x6051, 0, 0x0400)
        &&& end.called(from, Call::Incomplete(Feature::LvJumboWorkaroundEnable))
    }
    &&& !enable ==> {
        &&& end.did(from, Action::ClearRegisterBit(0x5F04, 0x0003_C000))
        &&& end.did(from, Action::ClearRegisterBit(0x100, 0x0400_0000))
        &&& end.rewrote_by(from, Port::Kmrn, 0x1, 0x0001, 0)
        &&& end.rewrote_by(from, Port::Plain, 0x6037, 0x0FE0, 0)
        &&& end.rewrote_by(from, Port::Plain, 0x6030, 0, 0x2000)
        &&& end.rewrote_by(from, Port::Plain, 0x6114, 0x0FFC, 0x0020)
        &&& end.called(from, Call::PhyWriteReg(0x6117, 0x7E00))
        &&& end.rewrote_by(from, Port::Plain, 0x6051, 0x0400, 0)
    }
}

pub broadcast proof fn lemma_modify_phy(run: Run, reg: u32, data: u16, clear: u16, set: u16)
    requires
        !run.modify_phy(reg, data, clear, set).0.stalled,
        run.modify_phy(reg, data, clear, set).1 is Ok,
    ensures
        (#[trigger] run.modify_phy(reg, data, clear, set)).0.rewrote_by(
            run.len(),
            Port::Plain,
            reg,
            clear,
            set,
        ),
        run.modify_phy(reg, data, clear, set).0.continues(run),
{
    broadcast use group_resumes;

    run.lemma_start();
    run.lemma_rewritten(Port::Plain, reg, data, clear, set);
}

pub broadcast proof fn lemma_modify_kmrn(run: Run, reg: u32, data: u16, clear: u16, set: u16)
    requires
        !run.modify_kmrn(reg, data, clear, set).0.stalled,
        run.modify_kmrn(reg, data, clear, set).1 is Ok,
    ensures
        (#[trigger] run.modify_kmrn(reg, data, clear, set)).0.rewrote_by(
            run.len(),
            Port::Kmrn,
            reg,
            clear,
            set,
        ),
        run.modify_kmrn(reg, data, clear, set).0.continues(run),
{
    broadcast use group_resumes;

    run.lemma_start();
    run.lemma_rewritten(Port::Kmrn, reg, data, clear, set);
}

pub broadcast proof fn lemma_jumbo_kmrn(run: Run, j: JumboSettings)
    requires
        !run.jumbo_kmrn(j).0.stalled,
        run.jumbo_kmrn(j).1 is Ok,
    ensures
        ({
            let end = (#[trigger] run.jumbo_kmrn(j)).0;
            &&& end.rewrote_by(run.len(), Port::Kmrn, 0x1, j.ctrl.0, j.ctrl.1)
            &&& end.rewrote_by(run.len(), Port::Kmrn, 0x10, 0x0F00, 0x0B00)
        }),
{
    broadcast use {group_resumes, group_events, lemma_modify_kmrn};

    reveal(Run::jumbo_kmrn);
    run.lemma_start();
}

pub broadcast proof fn lemma_jumbo_phy_gap(run: Run, j: JumboSettings, data: u16)
    requires
        !run.jumbo_phy_gap(j, data).0.stalled,
        run.jumbo_phy_gap(j, data).1 is Ok,
    ensures
        ({
            let end = (#[trigger] run.jumbo_phy_gap(j, data)).0;
            &&& end.rewrote_by(run.len(), Port::Plain, 0x6114, 0x0FFC, j.gap)
            &&& end.called(run.len(), Call::PhyWriteReg(0x6117, j.port))
            &&& end.rewrote_by(run.len(), Port::Plain, 0x6051, j.pm.0, j.pm.1)
        }),
{
    broadcast use {group_resumes, group_events, lemma_modify_phy};

    reveal(Run::jumbo_phy_gap);
    run.lemma_start();
}

pub broadcast proof fn lemma_jumbo_phy(run: Run, j: JumboSettings, data: u16)
    requires
        !run.jumbo_phy(j, data).0.stalled,
        run.jumbo_phy(j, data).1 is Ok,
    ensures
        ({
            let end = (#[trigger] run.jumbo_phy(j, data)).0;
            &&& end.rewrote_by(run.len(), Port::Plain, 0x6037, 0x0FE0, j.snoop)
            &&& end.rewrote_by(run.len(), Port::Plain, 0x6030, j.crc.0, j.crc.1)
            &&& end.rewrote_by(run.len(), Port::Plain, 0x6114, 0x0FFC, j.gap)
            &&& end.called(run.len(), Call::PhyWriteReg(0x6117, j.port))
            &&& end.rewrote_by(run.len(), Port::Plain, 0x6051, j.pm.0, j.pm.1)
        }),
{
    broadcast use {
        group_resumes,
        group_events,
        Run::law_jumbo_phy_gap_resumes,
        lemma_modify_phy,
        lemma_jumbo_phy_gap,
    };

    reveal(Run::jumbo_phy);
    run.lemma_start();
}

/// From PCH2 on, success in enabling or disabling the workaround means that
/// every register has been set for it, with the receive path disabled before
/// and enabled after. Earlier families are left alone.
pub proof fn law_jumbo_workaround(run: Run, enable: bool, mac_type: MacType, device_id: u16)
    requires
        run.device_is(mac_type, device_id),
        !run.jumbo_workaround(enable).0.stalled,
        run.jumbo_workaround(enable).1 is Ok,
    ensures
        ({
            let (end, r) = run.jumbo_workaround(enable);
            let affected = mac_type == MacType::Mac_pch2lan || lynx_point_on(mac_type);
            let rx = run.call(Call::PhyReadReg(0x6034, 0)).1.value as u16;
            &&& !affected ==> (end, r) == (run, Ok::<(), Error>(()))
            &&& affected ==> {
                &&& jumbo_is_set(end, run.len(), enable)
                &&& end.calls_at(run.len() + 1, Call::PhyWriteReg(0x6034, rx | 0x4000))
                &&& end.calls_at(end.len() - 1, Call::PhyWriteReg(0x6034, rx & !0x4000))
            }
        }),
{
    broadcast use {
        group_resumes,
        group_events,
        Run::law_jumbo_mac_resumes,
        Run::law_jumbo_kmrn_resumes,
        Run::law_jumbo_phy_resumes,
        Run::law_reenable_rx_path_resumes,
        lemma_jumbo_kmrn,
        lemma_jumbo_phy,
    };

    reveal(Run::jumbo_workaround);
    reveal(Run::jumbo_mac);
    reveal(Run::reenable_rx_path);
    lemma_setup_bits(0);
    run.lemma_start();
    run.lemma_device_known(mac_type, device_id);
    let end = run.jumbo_workaround(enable).0;
    if mac_type == MacType::Mac_pch2lan || lynx_point_on(mac_type) {
        let (s, a) = run.call(Call::PhyReadReg(0x6034, 0));
        let rx = a.value as u16;
        let off = Call::PhyWriteReg(0x6034, rx | 0x4000);
        let t = s.call(off).0;
        assert(end.continues(t)) by {
            t.lemma_start();
        }
        run.lemma_was_called(Call::PhyReadReg(0x6034, 0));
        s.lemma_was_called(off);
        end.lemma_kept(t);
        assert(end.trace[run.len() + 1] == t.trace[run.len() + 1]);
    }
}

} // verus!
