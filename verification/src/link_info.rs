//! The speed and duplex of the link.

use vstd::prelude::*;
use crate::error::{AdResult, Error};
use crate::hw::{Func, MacType, PhyType};
use crate::io::{Adapter, Call, Feature, Run};

verus! {

impl Run {
    /// Asks for the speed and duplex that the MAC has settled on.
    pub open spec fn speed_and_duplex(self, speed: u16, duplex: u16) -> (Run, AdResult, u16, u16) {
        let (s, a) = self.call(Call::GetSpeedAndDuplexCopperGeneric(speed, duplex));
        (s, a.result, a.value as u16, a.extra as u16)
    }

    /// The speed and duplex; what an IGP3 PHY on ICH8 needs besides is not
    /// implemented.
    #[verifier::opaque]
    pub open spec fn link_up_info(self, speed: u16, duplex: u16) -> (Run, AdResult, u16, u16) {
        let (s, r, speed, duplex) = self.speed_and_duplex(speed, duplex);
        if r is Ok && s.is_mac(MacType::Mac_ich8lan) && s.hw.phy.phy_type == PhyType::Type_igp_3 {
            let (s, r) = s.incomplete(Feature::LinkUpInfoIgp3);
            (s, r, speed, duplex)
        } else {
            (s, r, speed, duplex)
        }
    }

    /// The link information by way of the table of operations.
    #[verifier::opaque]
    pub open spec fn op_link_up_info(self, speed: u16, duplex: u16) -> (Run, AdResult, u16, u16) {
        match self.hw.mac.ops.get_link_up_info {
            None => (self, Err(Error::NoFunction), speed, duplex),
            Some(Func::GetLinkUpInfoIch8lan) => self.link_up_info(speed, duplex),
            Some(f) => {
                let (s, a) = self.call(Call::OpLinkUpInfo(f, speed, duplex));
                (s, a.result, a.value as u16, a.extra as u16)
            },
        }
    }
}

/// Asks for the speed and duplex that the MAC has settled on.
pub(crate) fn speed_and_duplex(adapter: &mut Adapter, speed: &mut u16, duplex: &mut u16) -> (res:
    AdResult)
    requires
        old(adapter).wf(),
    ensures
        final(adapter).wf(),
        (final(adapter)@, res, *final(speed), *final(duplex)) == old(adapter)@.speed_and_duplex(
            *old(speed),
            *old(duplex),
        ),
{
    let a = adapter.call(Call::GetSpeedAndDuplexCopperGeneric(*speed, *duplex));
    *speed = a.value as u16;
    *duplex = a.extra as u16;
    a.result
}

/// Gets the current link speed and duplex. The workaround for loss of the
/// Kumeran lock, which an IGP3 PHY on ICH8 needs, is not implemented.
pub fn get_link_up_info_ich8lan(adapter: &mut Adapter, speed: &mut u16, duplex: &mut u16) -> (res:
    AdResult)
    requires
        old(adapter).wf(),
    ensures
        final(adapter).wf(),
        (final(adapter)@, res, *final(speed), *final(duplex)) == old(adapter)@.link_up_info(
            *old(speed),
            *old(duplex),
        ),
{
    reveal(Run::link_up_info);
    let res = speed_and_duplex(adapter, speed, duplex);
    if res.is_ok() && adapter.is_mac(MacType::Mac_ich8lan) && adapter.hw.phy.phy_type
        == PhyType::Type_igp_3 {
        return adapter.incomplete(Feature::LinkUpInfoIgp3);
    }
    res
}

/// Gets the link information by way of the table of operations.
pub(crate) fn op_link_up_info(adapter: &mut Adapter, speed: &mut u16, duplex: &mut u16) -> (res:
    AdResult)
    requires
        old(adapter).wf(),
    ensures
        final(adapter).wf(),
        (final(adapter)@, res, *final(speed), *final(duplex)) == old(adapter)@.op_link_up_info(
            *old(speed),
            *old(duplex),
        ),
{
    reveal(Run::op_link_up_info);
    match adapter.hw.mac.ops.get_link_up_info {
        None => Err(Error::NoFunction),
        Some(Func::GetLinkUpInfoIch8lan) => get_link_up_info_ich8lan(adapter, speed, duplex),
        Some(f) => {
            let a = adapter.call(Call::OpLinkUpInfo(f, *speed, *duplex));
            *speed = a.value as u16;
            *duplex = a.extra as u16;
            a.result
        },
    }
}

/// The workaround for loss of the Kumeran lock; not implemented.
pub fn kmrn_lock_loss_workaround_ich8lan(adapter: &mut Adapter) -> (res: AdResult)
    requires
        old(adapter).wf(),
    ensures
        final(adapter).wf(),
        (final(adapter)@, res) == old(adapter)@.incomplete(Feature::KmrnLockLossWorkaroundIch8lan),
{
    adapter.incomplete(Feature::KmrnLockLossWorkaroundIch8lan)
}

} // verus!
