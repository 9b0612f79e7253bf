//! Power cycling the PHY by its LANPHYPC pin.

use vstd::prelude::*;
use crate::consts::{
    E1000_CTRL, E1000_CTRL_EXT, E1000_CTRL_EXT_LPCD, E1000_CTRL_LANPHYPC_OVERRIDE,
    E1000_CTRL_LANPHYPC_VALUE, E1000_FEXTNVM3, E1000_FEXTNVM3_PHY_CFG_COUNTER_50MSEC,
    E1000_FEXTNVM3_PHY_CFG_COUNTER_MASK,
};
use crate::hw::MacType;
use crate::io::{Adapter, Run};

verus! {

/// How often the driver looks whether the power cycle is done.
pub const LANPHYPC_TRIES: u32 = 21;

impl Run {
    /// Looks up to `tries` times, each after 5 ms, whether the power cycle of
    /// the PHY is done.
    pub open spec fn poll_lanphypc(self, tries: int) -> Run
        decreases tries,
    {
        let (s, ctrl_ext) = self.msec_delay(5).read_register(E1000_CTRL_EXT);
        if ctrl_ext & E1000_CTRL_EXT_LPCD != 0 || tries <= 1 {
            s
        } else {
            s.poll_lanphypc(tries - 1)
        }
    }

    /// Overrides the pin with a low value for 1 ms, with the configuration
    /// counter of the PHY at 50 ms, and waits until the PHY is up again.
    #[verifier::opaque]
    pub open spec fn toggle_lanphypc(self) -> Run {
        let s = self.modify_register(
            E1000_FEXTNVM3,
            E1000_FEXTNVM3_PHY_CFG_COUNTER_MASK,
            E1000_FEXTNVM3_PHY_CFG_COUNTER_50MSEC,
        );
        let (s, ctrl) = s.read_register(E1000_CTRL);
        let low = (ctrl | E1000_CTRL_LANPHYPC_OVERRIDE) & !E1000_CTRL_LANPHYPC_VALUE;
        let s = s.write_register(E1000_CTRL, low).write_flush().msec_delay(1);
        let s = s.write_register(
            E1000_CTRL,
            low & !E1000_CTRL_LANPHYPC_OVERRIDE,
        ).write_flush();
        if s.since(MacType::Mac_pch_lpt) {
            s.poll_lanphypc(LANPHYPC_TRIES as int).msec_delay(30)
        } else {
            s.msec_delay(50)
        }
    }
}

/// While the pin is overridden its value is low; afterwards it is no longer
/// overridden; and the control register is otherwise as it was.
pub proof fn law_lanphypc_bits(ctrl: u32)
    ensures
        ({
            let low = (ctrl | E1000_CTRL_LANPHYPC_OVERRIDE) & !E1000_CTRL_LANPHYPC_VALUE;
            let done = low & !E1000_CTRL_LANPHYPC_OVERRIDE;
            let pin = E1000_CTRL_LANPHYPC_OVERRIDE | E1000_CTRL_LANPHYPC_VALUE;
            &&& low & E1000_CTRL_LANPHYPC_OVERRIDE != 0
            &&& low & E1000_CTRL_LANPHYPC_VALUE == 0
            &&& done & pin == 0
            &&& low & !pin == ctrl & !pin
            &&& done & !pin == ctrl & !pin
        }),
{
    assert({
        let low = (ctrl | 0x0001_0000) & !0x0002_0000;
        let done = low & !0x0001_0000;
        let pin = 0x0001_0000u32 | 0x0002_0000;
        &&& low & 0x0001_0000 != 0
        &&& low & 0x0002_0000 == 0
        &&& done & pin == 0
        &&& low & !pin == ctrl & !pin
        &&& done & !pin == ctrl & !pin
    }) by (bit_vector);
}

/// Toggles the LANPHYPC pin, which power cycles the PHY and brings it to a
/// quiescent state.
pub fn toggle_lanphypc_pch_lpt(adapter: &mut Adapter)
    requires
        old(adapter).wf(),
    ensures
        final(adapter).wf(),
        final(adapter)@ == old(adapter)@.toggle_lanphypc(),
{
    reveal(Run::toggle_lanphypc);
    adapter.modify_register(
        E1000_FEXTNVM3,
        E1000_FEXTNVM3_PHY_CFG_COUNTER_MASK,
        E1000_FEXTNVM3_PHY_CFG_COUNTER_50MSEC,
    );
    let mut mac_reg: u32 = adapter.read_register(E1000_CTRL);
    mac_reg = (mac_reg | E1000_CTRL_LANPHYPC_OVERRIDE) & !E1000_CTRL_LANPHYPC_VALUE;
    adapter.write_register(E1000_CTRL, mac_reg);
    adapter.write_flush();
    adapter.msec_delay(1);
    mac_reg = mac_reg & !E1000_CTRL_LANPHYPC_OVERRIDE;
    adapter.write_register(E1000_CTRL, mac_reg);
    adapter.write_flush();
    if !adapter.mac_since(MacType::Mac_pch_lpt) {
        adapter.msec_delay(50);
        return;
    }
    let ghost start = adapter@;
    let mut count: u32 = LANPHYPC_TRIES;
    loop
        invariant_except_break
            adapter.wf(),
            1 <= count <= LANPHYPC_TRIES,
            adapter@.poll_lanphypc(count as int) == start.poll_lanphypc(LANPHYPC_TRIES as int),
        ensures
            adapter.wf(),
            adapter@ == start.poll_lanphypc(LANPHYPC_TRIES as int),
        decreases count,
    {
        adapter.msec_delay(5);
        if adapter.read_register(E1000_CTRL_EXT) & E1000_CTRL_EXT_LPCD != 0 || count == 1 {
            break;
        }
        count = count - 1;
    }
    adapter.msec_delay(30);
}

} // verus!
