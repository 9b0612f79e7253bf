//! Management mode, and the workarounds that power transitions need. None of
//! them is implemented: they do nothing.

use vstd::prelude::*;
use crate::io::Adapter;

verus! {

/// Checks whether any manageability is enabled, on ICH devices; it is taken
/// not to be.
pub fn check_mng_mode_ich8lan(adapter: &mut Adapter) -> (enabled: bool)
    requires
        old(adapter).wf(),
    ensures
        final(adapter).wf(),
        (final(adapter)@, enabled) == (old(adapter)@, false),
{
    false
}

/// Checks whether active management is enabled, on PCH devices; it is taken
/// not to be.
pub fn check_mng_mode_pchlan(adapter: &mut Adapter) -> (enabled: bool)
    requires
        old(adapter).wf(),
    ensures
        final(adapter).wf(),
        (final(adapter)@, enabled) == (old(adapter)@, false),
{
    false
}

/// The workaround for powering an 82566 down.
pub fn igp3_phy_powerdown_workaround_ich8lan(adapter: &mut Adapter)
    requires
        old(adapter).wf(),
    ensures
        final(adapter).wf(),
        final(adapter)@ == old(adapter)@,
{
}

/// The workaround for wake on LAN after the speed drops from 1 Gb/s.
pub fn gig_downshift_workaround_ich8lan(adapter: &mut Adapter)
    requires
        old(adapter).wf(),
    ensures
        final(adapter).wf(),
        final(adapter)@ == old(adapter)@,
{
}

/// The workarounds that suspending needs.
pub fn suspend_workarounds_ich8lan(adapter: &mut Adapter)
    requires
        old(adapter).wf(),
    ensures
        final(adapter).wf(),
        final(adapter)@ == old(adapter)@,
{
}

/// The workarounds that resuming needs; the result is always 0.
pub fn resume_workarounds_pchlan(adapter: &mut Adapter) -> (res: u32)
    requires
        old(adapter).wf(),
    ensures
        final(adapter).wf(),
        (final(adapter)@, res) == (old(adapter)@, 0u32),
{
    0
}

} // verus!
