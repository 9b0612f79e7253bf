//! The LEDs of the device and their use for identifying it.

use vstd::prelude::*;
use crate::consts::{
    E1000_LEDCTL, E1000_LEDCTL_LED0_MODE_MASK, E1000_LEDCTL_MODE_LINK_UP, E1000_PHY_LED0_IVRT,
    E1000_PHY_LED0_MASK, E1000_PHY_LED0_MODE_MASK, E1000_STATUS, E1000_STATUS_LU, HV_LED_CONFIG,
    ID_LED_DEF1_OFF2, ID_LED_DEF1_ON2, ID_LED_OFF1_DEF2, ID_LED_OFF1_OFF2, ID_LED_OFF1_ON2,
    ID_LED_ON1_DEF2, ID_LED_ON1_OFF2, ID_LED_ON1_ON2, IFE_PHY_SPECIAL_CONTROL_LED,
    IFE_PSCL_PROBE_MODE_LEDS_OFF, IFE_PSCL_PROBE_MODE_LEDS_ON,
};
use crate::error::AdResult;
use crate::hw::{Hw, MacInfo, PhyType};
use crate::io::{Adapter, Run};
use crate::nvm::op_led_settings;

verus! {

/// The configuration that stands for a lit LED: lit while the link is up. PCH
/// devices have no mode that is always on.
pub const LED_ON: u32 = 0x2;

/// The same inverted.
pub const LED_OFF: u32 = 0xA;

/// The four bits of the settings word for LED `i`.
pub open spec fn led_setting(data: u16, i: int) -> u16 {
    (data >> ((i * 4) as u16)) & 0xF
}

/// What the settings say of an LED in the first mode.
pub open spec fn first_mode(setting: u16) -> Option<u32> {
    if setting == ID_LED_ON1_DEF2 || setting == ID_LED_ON1_OFF2 || setting == ID_LED_ON1_ON2 {
        Some(LED_ON)
    } else if setting == ID_LED_OFF1_DEF2 || setting == ID_LED_OFF1_OFF2 || setting
        == ID_LED_OFF1_ON2 {
        Some(LED_OFF)
    } else {
        None
    }
}

/// What the settings say of an LED in the second mode.
pub open spec fn second_mode(setting: u16) -> Option<u32> {
    if setting == ID_LED_DEF1_ON2 || setting == ID_LED_ON1_ON2 || setting == ID_LED_OFF1_ON2 {
        Some(LED_ON)
    } else if setting == ID_LED_DEF1_OFF2 || setting == ID_LED_ON1_OFF2 || setting
        == ID_LED_OFF1_OFF2 {
        Some(LED_OFF)
    } else {
        None
    }
}

/// LED control `ledctl` with the five bits of LED `i` set to a configuration,
/// or left as they are.
pub open spec fn with_led(ledctl: u32, i: int, config: Option<u32>) -> u32 {
    match config {
        Some(c) => (ledctl & !(E1000_PHY_LED0_MASK << ((i * 5) as u32))) | (c << ((i * 5) as u32)),
        None => ledctl,
    }
}

/// The LED control of the first mode once the first `n` LEDs are set.
pub open spec fn first_leds(default: u32, data: u16, n: int) -> u32
    decreases n,
{
    if n <= 0 {
        default
    } else {
        with_led(first_leds(default, data, n - 1), n - 1, first_mode(led_setting(data, n - 1)))
    }
}

/// The LED control of the second mode once the first `n` LEDs are set.
pub open spec fn second_leds(default: u32, data: u16, n: int) -> u32
    decreases n,
{
    if n <= 0 {
        default
    } else {
        with_led(second_leds(default, data, n - 1), n - 1, second_mode(led_setting(data, n - 1)))
    }
}

/// The PHY's LED configuration with the invert bit of the LED at bit `shift`
/// flipped, if the mode of the LED is to show the link.
pub open spec fn flip_if_link_led(data: u16, shift: u32) -> u16 {
    let led = (data as u32) >> shift;
    let bit = (E1000_PHY_LED0_IVRT as u16) << shift;
    if led & E1000_PHY_LED0_MODE_MASK != E1000_LEDCTL_MODE_LINK_UP {
        data
    } else if led & E1000_PHY_LED0_IVRT != 0 {
        data & !bit
    } else {
        data | bit
    }
}

/// The same for all three LEDs that the PHY has.
pub open spec fn flip_link_leds(data: u16) -> u16 {
    flip_if_link_led(flip_if_link_led(flip_if_link_led(data, 0), 5), 10)
}

/// Configuring one LED changes its five bits and no others.
pub proof fn law_with_led_is_local(ledctl: u32, i: int, j: int, c: u32)
    requires
        0 <= i < 4,
        0 <= j < 4,
        c <= E1000_PHY_LED0_MASK,
    ensures
        (with_led(ledctl, i, Some(c)) >> ((j * 5) as u32)) & E1000_PHY_LED0_MASK == if i == j {
            c
        } else {
            (ledctl >> ((j * 5) as u32)) & E1000_PHY_LED0_MASK
        },
        with_led(ledctl, i, Some(c)) >> 20 == ledctl >> 20,
{
    let si = (i * 5) as u32;
    let sj = (j * 5) as u32;
    assert({
        let w = (ledctl & !(0x1Fu32 << si)) | (c << si);
        &&& si == sj ==> (w >> sj) & 0x1F == c
        &&& si != sj ==> (w >> sj) & 0x1F == (ledctl >> sj) & 0x1F
        &&& w >> 20 == ledctl >> 20
    }) by (bit_vector)
        requires
            si == 0 || si == 5 || si == 10 || si == 15,
            sj == 0 || sj == 5 || sj == 10 || sj == 15,
            c <= 0x1F,
    ;
}

/// Flipping the link LEDs twice changes nothing.
pub proof fn law_flip_link_leds_twice(data: u16)
    ensures
        flip_link_leds(flip_link_leds(data)) == data,
{
    assert(flip_link_leds(flip_link_leds(data)) == data) by (bit_vector);
}

/// Flipping the link LEDs changes no mode, and the invert bits of the link
/// LEDs alone.
pub proof fn law_flip_changes_invert_bits(data: u16)
    ensures
        flip_link_leds(data) & 0x1CE7 == data & 0x1CE7,
        flip_link_leds(data) & 0x0008 != data & 0x0008 <==> data & 0x0007 == 0x0002,
        flip_link_leds(data) & 0x0100 != data & 0x0100 <==> data & 0x00E0 == 0x0040,
        flip_link_leds(data) & 0x2000 != data & 0x2000 <==> data & 0x1C00 == 0x0800,
{
    assert({
        let f = flip_link_leds(data);
        &&& f & 0x1CE7 == data & 0x1CE7
        &&& (f & 0x0008 != data & 0x0008) == (data & 0x0007 == 0x0002)
        &&& (f & 0x0100 != data & 0x0100) == (data & 0x00E0 == 0x0040)
        &&& (f & 0x2000 != data & 0x2000) == (data & 0x1C00 == 0x0800)
    }) by (bit_vector);
}

impl Hw {
    /// The state with the LED control of both modes, from what the LED control
    /// register holds and the settings say.
    pub open spec fn with_led_modes(self, ledctl: u32, data: u16) -> Hw {
        Hw {
            mac: MacInfo {
                ledctl_default: ledctl,
                ledctl_mode1: first_leds(ledctl, data, 4),
                ledctl_mode2: second_leds(ledctl, data, 4),
                ..self.mac
            },
            ..self
        }
    }
}

impl Run {
    #[verifier::opaque]
    pub open spec fn id_led_init(self) -> (Run, AdResult) {
        let (s, r, data) = self.op_led_settings(0);
        if r is Err {
            (s, r)
        } else {
            let (s, ledctl) = s.read_register(E1000_LEDCTL);
            (s.with_hw(s.hw.with_led_modes(ledctl, data)), Ok(()))
        }
    }

    /// Writes the LED control register, or on an IFE PHY its LED control.
    #[verifier::opaque]
    pub open spec fn set_leds(self, ife: u16, ledctl: u32) -> (Run, AdResult) {
        if self.hw.phy.phy_type == PhyType::Type_ife {
            self.phy_write_reg(IFE_PHY_SPECIAL_CONTROL_LED, ife)
        } else {
            (self.write_register(E1000_LEDCTL, ledctl), Ok(()))
        }
    }

    /// Writes the LED configuration of the PHY: `data`, with the link LEDs
    /// flipped if there is no link.
    #[verifier::opaque]
    pub open spec fn set_phy_leds(self, data: u16) -> (Run, AdResult) {
        let (s, status) = self.read_register(E1000_STATUS);
        if status & E1000_STATUS_LU == 0 {
            s.phy_write_reg(HV_LED_CONFIG, flip_link_leds(data))
        } else {
            s.phy_write_reg(HV_LED_CONFIG, data)
        }
    }
}

fn set_led_modes(adapter: &mut Adapter, ledctl: u32, data: u16)
    requires
        old(adapter).wf(),
    ensures
        final(adapter).wf(),
        final(adapter)@ == old(adapter)@.with_hw(old(adapter).hw.with_led_modes(ledctl, data)),
{
    let mut mode1: u32 = ledctl;
    let mut mode2: u32 = ledctl;
    let mut i: u32 = 0;
    while i < 4
        invariant
            i <= 4,
            mode1 == first_leds(ledctl, data, i as int),
            mode2 == second_leds(ledctl, data, i as int),
        decreases 4 - i,
    {
        let temp: u16 = (data >> ((i * 4) as u16)) & E1000_LEDCTL_LED0_MODE_MASK as u16;
        let shift: u32 = i * 5;
        if temp == ID_LED_ON1_DEF2 || temp == ID_LED_ON1_OFF2 || temp == ID_LED_ON1_ON2 {
            mode1 = (mode1 & !(E1000_PHY_LED0_MASK << shift)) | (LED_ON << shift);
        }
        if temp == ID_LED_OFF1_DEF2 || temp == ID_LED_OFF1_OFF2 || temp == ID_LED_OFF1_ON2 {
            mode1 = (mode1 & !(E1000_PHY_LED0_MASK << shift)) | (LED_OFF << shift);
        }
        if temp == ID_LED_DEF1_ON2 || temp == ID_LED_ON1_ON2 || temp == ID_LED_OFF1_ON2 {
            mode2 = (mode2 & !(E1000_PHY_LED0_MASK << shift)) | (LED_ON << shift);
        }
        if temp == ID_LED_DEF1_OFF2 || temp == ID_LED_ON1_OFF2 || temp == ID_LED_OFF1_OFF2 {
            mode2 = (mode2 & !(E1000_PHY_LED0_MASK << shift)) | (LED_OFF << shift);
        }
        i = i + 1;
    }
    adapter.hw.mac.ledctl_default = ledctl;
    adapter.hw.mac.ledctl_mode1 = mode1;
    adapter.hw.mac.ledctl_mode2 = mode2;
}

/// Stores the LED configurations for identifying the device. PCH devices have
/// no mode that is always on or off; the mode that shows the link stands in,
/// and is inverted when there is no link.
pub fn id_led_init_pchlan(adapter: &mut Adapter) -> (res: AdResult)
    requires
        old(adapter).wf(),
    ensures
        final(adapter).wf(),
        (final(adapter)@, res) == old(adapter)@.id_led_init(),
{
    reveal(Run::id_led_init);
    let mut data: u16 = 0;
    if let Err(e) = op_led_settings(adapter, &mut data) {
        return Err(e);
    }
    let ledctl = adapter.read_register(E1000_LEDCTL);
    set_led_modes(adapter, ledctl, data);
    Ok(())
}

fn set_leds(adapter: &mut Adapter, ife: u16, ledctl: u32) -> (res: AdResult)
    requires
        old(adapter).wf(),
    ensures
        final(adapter).wf(),
        (final(adapter)@, res) == old(adapter)@.set_leds(ife, ledctl),
{
    reveal(Run::set_leds);
    if adapter.hw.phy.phy_type == PhyType::Type_ife {
        return adapter.phy_write_reg(IFE_PHY_SPECIAL_CONTROL_LED, ife);
    }
    adapter.write_register(E1000_LEDCTL, ledctl);
    Ok(())
}

/// Returns the LEDs to the default configuration.
pub fn cleanup_led_ich8lan(adapter: &mut Adapter) -> (res: AdResult)
    requires
        old(adapter).wf(),
    ensures
        final(adapter).wf(),
        (final(adapter)@, res) == old(adapter)@.set_leds(0, old(adapter).hw.mac.ledctl_default),
{
    let ledctl: u32 = adapter.hw.mac.ledctl_default;
    set_leds(adapter, 0, ledctl)
}

/// Turns the LEDs on.
pub fn led_on_ich8lan(adapter: &mut Adapter) -> (res: AdResult)
    requires
        old(adapter).wf(),
    ensures
        final(adapter).wf(),
        (final(adapter)@, res) == old(adapter)@.set_leds(
            IFE_PSCL_PROBE_MODE_LEDS_ON,
            old(adapter).hw.mac.ledctl_mode2,
        ),
{
    let ledctl: u32 = adapter.hw.mac.ledctl_mode2;
    set_leds(adapter, IFE_PSCL_PROBE_MODE_LEDS_ON, ledctl)
}

/// Turns the LEDs off.
pub fn led_off_ich8lan(adapter: &mut Adapter) -> (res: AdResult)
    requires
        old(adapter).wf(),
    ensures
        final(adapter).wf(),
        (final(adapter)@, res) == old(adapter)@.set_leds(
            IFE_PSCL_PROBE_MODE_LEDS_OFF,
            old(adapter).hw.mac.ledctl_mode1,
        ),
{
    let ledctl: u32 = adapter.hw.mac.ledctl_mode1;
    set_leds(adapter, IFE_PSCL_PROBE_MODE_LEDS_OFF, ledctl)
}

/// Prepares the LEDs that software controls.
pub fn setup_led_pchlan(adapter: &mut Adapter) -> (res: AdResult)
    requires
        old(adapter).wf(),
    ensures
        final(adapter).wf(),
        (final(adapter)@, res) == old(adapter)@.phy_write_reg(
            HV_LED_CONFIG,
            old(adapter).hw.mac.ledctl_mode1 as u16,
        ),
{
    let data: u16 = adapter.hw.mac.ledctl_mode1 as u16;
    adapter.phy_write_reg(HV_LED_CONFIG, data)
}

/// Returns the LEDs to the default configuration.
pub fn cleanup_led_pchlan(adapter: &mut Adapter) -> (res: AdResult)
    requires
        old(adapter).wf(),
    ensures
        final(adapter).wf(),
        (final(adapter)@, res) == old(adapter)@.phy_write_reg(
            HV_LED_CONFIG,
            old(adapter).hw.mac.ledctl_default as u16,
        ),
{
    let data: u16 = adapter.hw.mac.ledctl_default as u16;
    adapter.phy_write_reg(HV_LED_CONFIG, data)
}

fn flip_leds(data: u16) -> (res: u16)
    ensures
        res == flip_link_leds(data),
{
    let d: u16 = flip_led(data, 0);
    let d: u16 = flip_led(d, 5);
    flip_led(d, 10)
}

fn flip_led(data: u16, shift: u32) -> (res: u16)
    requires
        shift < 16,
    ensures
        res == flip_if_link_led(data, shift),
{
    let led: u32 = (data as u32) >> shift;
    let bit: u16 = (E1000_PHY_LED0_IVRT as u16) << shift;
    if led & E1000_PHY_LED0_MODE_MASK != E1000_LEDCTL_MODE_LINK_UP {
        return data;
    }
    if led & E1000_PHY_LED0_IVRT != 0 {
        data & !bit
    } else {
        data | bit
    }
}

fn set_phy_leds(adapter: &mut Adapter, data: u16) -> (res: AdResult)
    requires
        old(adapter).wf(),
    ensures
        final(adapter).wf(),
        (final(adapter)@, res) == old(adapter)@.set_phy_leds(data),
{
    reveal(Run::set_phy_leds);
    if adapter.read_register(E1000_STATUS) & E1000_STATUS_LU == 0 {
        return adapter.phy_write_reg(HV_LED_CONFIG, flip_leds(data));
    }
    adapter.phy_write_reg(HV_LED_CONFIG, data)
}

/// Turns the LEDs on.
pub fn led_on_pchlan(adapter: &mut Adapter) -> (res: AdResult)
    requires
        old(adapter).wf(),
    ensures
        final(adapter).wf(),
        (final(adapter)@, res) == old(adapter)@.set_phy_leds(
            old(adapter).hw.mac.ledctl_mode2 as u16,
        ),
{
    let data: u16 = adapter.hw.mac.ledctl_mode2 as u16;
    set_phy_leds(adapter, data)
}

/// Turns the LEDs off.
pub fn led_off_pchlan(adapter: &mut Adapter) -> (res: AdResult)
    requires
        old(adapter).wf(),
    ensures
        final(adapter).wf(),
        (final(adapter)@, res) == old(adapter)@.set_phy_leds(
            old(adapter).hw.mac.ledctl_mode1 as u16,
        ),
{
    let data: u16 = adapter.hw.mac.ledctl_mode1 as u16;
    set_phy_leds(adapter, data)
}

} // verus!
