//! Setting up the link and the flow control.

use vstd::prelude::*;
use crate::consts::{
    BM_PORT_PAUSE_TIME, E1000_CTRL, E1000_CTRL_FRCDPX, E1000_CTRL_FRCSPD, E1000_CTRL_SLU,
    E1000_FCRTV_PCH, E1000_FCTTV,
};
use crate::error::{AdResult, Error};
use crate::hw::{FcInfo, FcMode, Func, Hw};
use crate::io::{Adapter, Call, Feature, Run};

verus! {

impl Hw {
    /// The state with the flow control mode to begin with: the one requested,
    /// where the default stands for full flow control.
    pub open spec fn with_fc_mode(self) -> Hw {
        let mode = if self.fc.requested_mode == FcMode::Default {
            FcMode::Full
        } else {
            self.fc.requested_mode
        };
        Hw { fc: FcInfo { requested_mode: mode, current_mode: mode, ..self.fc }, ..self }
    }
}

impl Run {
    /// Lets the MAC set the link up without forcing speed or duplex, then sets
    /// the PHY up.
    #[verifier::opaque]
    pub open spec fn setup_copper_link(self) -> (Run, AdResult) {
        let (s, ctrl) = self.read_register(E1000_CTRL);
        let s = s.write_register(
            E1000_CTRL,
            (ctrl | E1000_CTRL_SLU) & !(E1000_CTRL_FRCSPD | E1000_CTRL_FRCDPX),
        );
        let (s, r) = s.invoke(Call::CopperLinkSetup82577);
        if r is Err {
            (s, r)
        } else {
            s.invoke(Call::SetupCopperLinkGeneric)
        }
    }

    /// Sets up the physical interface by way of the table of operations.
    #[verifier::opaque]
    pub open spec fn op_setup_physical_interface(self) -> (Run, AdResult) {
        match self.hw.mac.ops.setup_physical_interface {
            None => (self, Err(Error::NoFunction)),
            Some(Func::SetupCopperLinkPchLpt) => self.setup_copper_link(),
            Some(Func::SetupCopperLinkIch8lan) => self.incomplete(Feature::SetupCopperLinkIch8lan),
            Some(f) => self.invoke(Call::Op(f)),
        }
    }

    /// Writes the pause and refresh times, to the PHY too where it needs them,
    /// and has the watermarks set.
    #[verifier::opaque]
    pub open spec fn setup_flow_control(self) -> (Run, AdResult) {
        let s = self.write_register(E1000_FCTTV, self.hw.fc.pause_time as u32);
        if s.hw.phy.phy_type.pch() {
            let (s, r) = s.write_register(
                E1000_FCRTV_PCH,
                s.hw.fc.refresh_time as u32,
            ).phy_write_reg(BM_PORT_PAUSE_TIME, s.hw.fc.pause_time);
            if r is Err {
                (s, r)
            } else {
                (s.invoke(Call::SetFcWatermarksGeneric).0, Ok(()))
            }
        } else {
            (s.invoke(Call::SetFcWatermarksGeneric).0, Ok(()))
        }
    }

    #[verifier::opaque]
    pub open spec fn setup_link(self) -> (Run, AdResult) {
        let (s, blocked) = self.check_reset_block();
        if blocked matches Ok(true) {
            (s, Ok(()))
        } else {
            let (s, r) = s.with_hw(s.hw.with_fc_mode()).op_setup_physical_interface();
            if r is Err {
                (s, r)
            } else {
                s.setup_flow_control()
            }
        }
    }

    /// Sets up the link by way of the table of operations.
    #[verifier::opaque]
    pub open spec fn op_setup_link(self) -> (Run, AdResult) {
        match self.hw.mac.ops.setup_link {
            None => (self, Err(Error::NoFunction)),
            Some(Func::SetupLinkIch8lan) => self.setup_link(),
            Some(f) => self.invoke(Call::Op(f)),
        }
    }
}

/// The flow control mode to begin with is the one requested, and is never the
/// default, which stands for full flow control.
pub proof fn law_fc_mode(hw: Hw)
    ensures
        hw.with_fc_mode().fc.current_mode == hw.with_fc_mode().fc.requested_mode,
        hw.with_fc_mode().fc.current_mode != FcMode::Default,
        hw.fc.requested_mode != FcMode::Default ==> hw.with_fc_mode().fc.current_mode
            == hw.fc.requested_mode,
        hw.with_fc_mode().with_fc_mode() == hw.with_fc_mode(),
{
}

/// Configures the interface between MAC and PHY of ICH devices; not
/// implemented.
pub fn setup_copper_link_ich8lan(adapter: &mut Adapter) -> (res: AdResult)
    requires
        old(adapter).wf(),
    ensures
        final(adapter).wf(),
        (final(adapter)@, res) == old(adapter)@.incomplete(Feature::SetupCopperLinkIch8lan),
{
    adapter.incomplete(Feature::SetupCopperLinkIch8lan)
}

/// Configures the interface between MAC and PHY of Lynx Point and later.
pub fn setup_copper_link_pch_lpt(adapter: &mut Adapter) -> (res: AdResult)
    requires
        old(adapter).wf(),
    ensures
        final(adapter).wf(),
        (final(adapter)@, res) == old(adapter)@.setup_copper_link(),
{
    reveal(Run::setup_copper_link);
    let ctrl = adapter.read_register(E1000_CTRL);
    adapter.write_register(
        E1000_CTRL,
        (ctrl | E1000_CTRL_SLU) & !(E1000_CTRL_FRCSPD | E1000_CTRL_FRCDPX),
    );
    if let Err(e) = adapter.invoke(Call::CopperLinkSetup82577) {
        return Err(e);
    }
    adapter.invoke(Call::SetupCopperLinkGeneric)
}

fn op_setup_physical_interface(adapter: &mut Adapter) -> (res: AdResult)
    requires
        old(adapter).wf(),
    ensures
        final(adapter).wf(),
        (final(adapter)@, res) == old(adapter)@.op_setup_physical_interface(),
{
    reveal(Run::op_setup_physical_interface);
    match adapter.hw.mac.ops.setup_physical_interface {
        None => Err(Error::NoFunction),
        Some(Func::SetupCopperLinkPchLpt) => setup_copper_link_pch_lpt(adapter),
        Some(Func::SetupCopperLinkIch8lan) => setup_copper_link_ich8lan(adapter),
        Some(f) => adapter.invoke(Call::Op(f)),
    }
}

fn set_fc_mode(adapter: &mut Adapter)
    requires
        old(adapter).wf(),
    ensures
        final(adapter).wf(),
        final(adapter)@ == old(adapter)@.with_hw(old(adapter).hw.with_fc_mode()),
{
    if adapter.hw.fc.requested_mode == FcMode::Default {
        adapter.hw.fc.requested_mode = FcMode::Full;
    }
    adapter.hw.fc.current_mode = adapter.hw.fc.requested_mode;
}

fn setup_flow_control(adapter: &mut Adapter) -> (res: AdResult)
    requires
        old(adapter).wf(),
    ensures
        final(adapter).wf(),
        (final(adapter)@, res) == old(adapter)@.setup_flow_control(),
{
    reveal(Run::setup_flow_control);
    let pause_time: u16 = adapter.hw.fc.pause_time;
    adapter.write_register(E1000_FCTTV, pause_time as u32);
    if adapter.hw.phy.phy_type.is_pch() {
        let pause_time: u16 = adapter.hw.fc.pause_time;
        let refresh_time: u16 = adapter.hw.fc.refresh_time;
        adapter.write_register(E1000_FCRTV_PCH, refresh_time as u32);
        if let Err(e) = adapter.phy_write_reg(BM_PORT_PAUSE_TIME, pause_time) {
            return Err(e);
        }
    }
    let _ = adapter.invoke(Call::SetFcWatermarksGeneric);
    Ok(())
}

/// Sets up flow control and the link, unless the firmware blocks resets of the
/// PHY. The hardware must have been reset, with transmitter and receiver off.
pub fn setup_link_ich8lan(adapter: &mut Adapter) -> (res: AdResult)
    requires
        old(adapter).wf(),
    ensures
        final(adapter).wf(),
        (final(adapter)@, res) == old(adapter)@.setup_link(),
{
    reveal(Run::setup_link);
    if let Ok(true) = adapter.check_reset_block() {
        return Ok(());
    }
    // The NVM of these parts has no word for the default flow control.
    set_fc_mode(adapter);
    if let Err(e) = op_setup_physical_interface(adapter) {
        return Err(e);
    }
    setup_flow_control(adapter)
}

/// Sets up the link by way of the table of operations.
pub(crate) fn op_setup_link(adapter: &mut Adapter) -> (res: AdResult)
    requires
        old(adapter).wf(),
    ensures
        final(adapter).wf(),
        (final(adapter)@, res) == old(adapter)@.op_setup_link(),
{
    reveal(Run::op_setup_link);
    match adapter.hw.mac.ops.setup_link {
        None => Err(Error::NoFunction),
        Some(Func::SetupLinkIch8lan) => setup_link_ich8lan(adapter),
        Some(f) => adapter.invoke(Call::Op(f)),
    }
}

} // verus!
