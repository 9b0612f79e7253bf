//! Identifying the device by its LEDs: what the settings of the NVM make of
//! the two modes that are stored.

use vstd::prelude::*;
use crate::events::group_events;
use crate::hw::{Func, PhyType};
use crate::io::{Action, Call, Run};
use crate::led::{
    first_leds, first_mode, flip_link_leds, law_flip_changes_invert_bits, law_with_led_is_local,
    led_setting, second_leds, second_mode, with_led,
};
use crate::resume::group_resumes;

verus! {

/// The five bits of LED `i` in a value of the LED control register.
pub open spec fn led_bits(ledctl: u32, i: int) -> u32 {
    (ledctl >> ((i * 5) as u32)) & 0x1F
}

/// The four bits of the settings word for LED `i`.
pub open spec fn setting_bits(data: u16, i: int) -> u16 {
    (data >> ((i * 4) as u16)) & 0xF
}

/// Whether `mode1` is the LED control of the first mode: each of the four LEDs
/// as its settings say, the rest as in `default`.
pub open spec fn is_first_mode(mode1: u32, default: u32, data: u16) -> bool {
    &&& mode1 >> 20 == default >> 20
    &&& forall|i: int|
        0 <= i < 4 ==> #[trigger] led_bits(mode1, i) == match setting_bits(data, i) {
            4u16 => 0x02u32,
            5u16 => 0x02u32,
            6u16 => 0x02u32,
            7u16 => 0x0Au32,
            8u16 => 0x0Au32,
            9u16 => 0x0Au32,
            _ => led_bits(default, i),
        }
}

/// The same of the second mode.
pub open spec fn is_second_mode(mode2: u32, default: u32, data: u16) -> bool {
    &&& mode2 >> 20 == default >> 20
    &&& forall|i: int|
        0 <= i < 4 ==> #[trigger] led_bits(mode2, i) == match setting_bits(data, i) {
            2u16 => 0x02u32,
            5u16 => 0x02u32,
            8u16 => 0x02u32,
            3u16 => 0x0Au32,
            6u16 => 0x0Au32,
            9u16 => 0x0Au32,
            _ => led_bits(default, i),
        }
}

proof fn lemma_step(ledctl: u32, i: int, config: Option<u32>, j: int)
    requires
        0 <= i < 4,
        0 <= j < 4,
        config matches Some(c) ==> c <= 0x1F,
    ensures
        led_bits(with_led(ledctl, i, config), j) == if i == j && config is Some {
            config->0
        } else {
            led_bits(ledctl, j)
        },
        with_led(ledctl, i, config) >> 20 == ledctl >> 20,
{
    if let Some(c) = config {
        law_with_led_is_local(ledctl, i, j, c);
    }
}

proof fn lemma_first_leds(default: u32, data: u16, n: int, j: int)
    requires
        0 <= n <= 4,
        0 <= j < 4,
    ensures
        first_leds(default, data, n) >> 20 == default >> 20,
        led_bits(first_leds(default, data, n), j) == if j < n && first_mode(
            led_setting(data, j),
        ) is Some {
            first_mode(led_setting(data, j))->0
        } else {
            led_bits(default, j)
        },
    decreases n,
{
    if n > 0 {
        lemma_first_leds(default, data, n - 1, j);
        lemma_step(
            first_leds(default, data, n - 1),
            n - 1,
            first_mode(led_setting(data, n - 1)),
            j,
        );
    }
}

proof fn lemma_second_leds(default: u32, data: u16, n: int, j: int)
    requires
        0 <= n <= 4,
        0 <= j < 4,
    ensures
        second_leds(default, data, n) >> 20 == default >> 20,
        led_bits(second_leds(default, data, n), j) == if j < n && second_mode(
            led_setting(data, j),
        ) is Some {
            second_mode(led_setting(data, j))->0
        } else {
            led_bits(default, j)
        },
    decreases n,
{
    if n > 0 {
        lemma_second_leds(default, data, n - 1, j);
        lemma_step(
            second_leds(default, data, n - 1),
            n - 1,
            second_mode(led_setting(data, n - 1)),
            j,
        );
    }
}

/// The settings that a word of the NVM stands for: 0x1981 where it holds none.
pub open spec fn settings_of(word: u16) -> u16 {
    if word == 0 || word == 0xFFFF {
        0x1981
    } else {
        word
    }
}

/// Once the LEDs are initialized, the two modes that are stored have each LED
/// as word 4 of the NVM says, in terms of what the LED control register held:
/// on where the setting is 4, 5 or 6 in the first mode and 2, 5 or 8 in the
/// second, off where it is 7, 8 or 9 and 3, 6 or 9, and otherwise as it was.
pub proof fn law_led_modes(run: Run)
    requires
        !run.id_led_init().0.stalled,
        run.id_led_init().1 is Ok,
    ensures
        ({
            let end = run.id_led_init().0;
            let mac = end.hw.mac;
            &&& end.saw(run.len(), 0xE00, mac.ledctl_default)
            &&& run.hw.nvm.ops.valid_led_default == Some(Func::ValidLedDefaultIch8lan) ==> {
                let data = settings_of(run.call(Call::NvmReadWord(4, 0)).1.value as u16);
                &&& is_first_mode(mac.ledctl_mode1, mac.ledctl_default, data)
                &&& is_second_mode(mac.ledctl_mode2, mac.ledctl_default, data)
            }
            &&& run.hw.nvm.ops.valid_led_default is Some && run.hw.nvm.ops.valid_led_default
                != Some(Func::ValidLedDefaultIch8lan) ==> {
                let f = run.hw.nvm.ops.valid_led_default->0;
                let data = run.call(Call::OpLedDefault(f, 0)).1.value as u16;
                &&& is_first_mode(mac.ledctl_mode1, mac.ledctl_default, data)
                &&& is_second_mode(mac.ledctl_mode2, mac.ledctl_default, data)
            }
        }),
{
    broadcast use {group_resumes, group_events, Run::law_op_led_settings_resumes};

    reveal(Run::id_led_init);
    reveal(Run::op_led_settings);
    reveal(Run::led_settings);
    run.lemma_start();
    let (s, _, data) = run.op_led_settings(0);
    let (t, ledctl) = s.read_register(0xE00);
    let end = run.id_led_init().0;
    assert(end.continues(t));
    assert(t.saw(run.len(), 0xE00, ledctl));
    let (mode1, mode2) = (first_leds(ledctl, data, 4), second_leds(ledctl, data, 4));
    assert forall|i: int| 0 <= i < 4 implies #[trigger] led_bits(mode1, i) == match setting_bits(
        data,
        i,
    ) {
        4u16 => 0x02u32,
        5u16 => 0x02u32,
        6u16 => 0x02u32,
        7u16 => 0x0Au32,
        8u16 => 0x0Au32,
        9u16 => 0x0Au32,
        _ => led_bits(ledctl, i),
    } by {
        lemma_first_leds(ledctl, data, 4, i);
    }
    assert forall|i: int| 0 <= i < 4 implies #[trigger] led_bits(mode2, i) == match setting_bits(
        data,
        i,
    ) {
        2u16 => 0x02u32,
        5u16 => 0x02u32,
        8u16 => 0x02u32,
        3u16 => 0x0Au32,
        6u16 => 0x0Au32,
        9u16 => 0x0Au32,
        _ => led_bits(ledctl, i),
    } by {
        lemma_second_leds(ledctl, data, 4, i);
    }
    lemma_first_leds(ledctl, data, 4, 0);
    lemma_second_leds(ledctl, data, 4, 0);
}

/// What the PHY's LEDs are set to: with a link the mode asked for; without one
/// the same but that each LED whose mode shows the link is inverted.
pub proof fn law_phy_leds_are_set(run: Run, data: u16)
    requires
        !run.set_phy_leds(data).0.stalled,
    ensures
        ({
            let end = run.set_phy_leds(data).0;
            let status = run.read_register(8).1;
            &&& status & 2 != 0 ==> end.calls_at(end.len() - 1, Call::PhyWriteReg(0x601E, data))
            &&& status & 2 == 0 ==> exists|w: u16|
                {
                    &&& #[trigger] end.calls_at(end.len() - 1, Call::PhyWriteReg(0x601E, w))
                    &&& w & !0x2108 == data & !0x2108
                    &&& w & 0x0008 != data & 0x0008 <==> data & 0x0007 == 0x0002
                    &&& w & 0x0100 != data & 0x0100 <==> data & 0x00E0 == 0x0040
                    &&& w & 0x2000 != data & 0x2000 <==> data & 0x1C00 == 0x0800
                }
        }),
{
    broadcast use {group_resumes, group_events};

    reveal(Run::set_phy_leds);
    law_flip_changes_invert_bits(data);
    assert(flip_link_leds(data) & !0x2108 == data & !0x2108) by (bit_vector);
    let end = run.set_phy_leds(data).0;
    let status = run.read_register(8).1;
    if status & 2 == 0 {
        assert(end.calls_at(end.len() - 1, Call::PhyWriteReg(0x601E, flip_link_leds(data))));
    }
}

/// On an IFE PHY its LED control register is written, elsewhere that of the
/// MAC.
pub proof fn law_leds_are_set(run: Run, ife: u16, ledctl: u32)
    requires
        !run.set_leds(ife, ledctl).0.stalled,
    ensures
        ({
            let end = run.set_leds(ife, ledctl).0;
            &&& run.hw.phy.phy_type == PhyType::Type_ife ==> end.calls_at(
                run.len(),
                Call::PhyWriteReg(0x1B, ife),
            )
            &&& run.hw.phy.phy_type != PhyType::Type_ife ==> end.trace == run.trace.push(
                Action::WriteRegister(0xE00, ledctl),
            )
        }),
{
    reveal(Run::set_leds);
    reveal(Run::act);
    reveal(Run::call);
}

} // verus!
