//! The MAC: addresses, tables, counters, LEDs, reset, against a simulated device.

#![allow(dead_code)]

use std::collections::BTreeMap;

use e1000_ich8lan::consts::{
    BM_PORT_PAUSE_TIME, E1000_CRC_OFFSET, E1000_CTRL, E1000_CTRL_EXT, E1000_EXTCNF_CTRL,
    E1000_FCRTV_PCH, E1000_FCTTV, E1000_FEXTNVM3, E1000_FWSM, E1000_IMC, E1000_KABGTXD,
    E1000_LEDCTL, E1000_MTA, E1000_PBA, E1000_PBECCSTS, E1000_PBS, E1000_RAH0, E1000_RAL0,
    E1000_RCTL, E1000_RFCTL, E1000_STATUS, E1000_TARC0, E1000_TARC1, E1000_TCTL, E1000_TXDCTL0,
    E1000_TXDCTL1, HV_LED_CONFIG,
};
use e1000_ich8lan::counters::clear_hw_cntrs_ich8lan;
use e1000_ich8lan::error::Error;
use e1000_ich8lan::hw::{BusWidth, FcMode, Func, Hw, MacType, PhyType};
use e1000_ich8lan::io::{Action, Adapter, Call, Feature, Reply, Return};
use e1000_ich8lan::led::{
    cleanup_led_ich8lan, cleanup_led_pchlan, id_led_init_pchlan, led_off_ich8lan, led_off_pchlan,
    led_on_ich8lan, led_on_pchlan, setup_led_pchlan,
};
use e1000_ich8lan::mcast::update_mc_addr_list_pch2lan;
use e1000_ich8lan::rar::{rar_set_pch2lan, rar_set_pch_lpt};
use e1000_ich8lan::reset::{
    get_bus_info_ich8lan, init_hw_ich8lan, initialize_hw_bits_ich8lan, reset_hw_ich8lan,
};
use e1000_ich8lan::setup::{setup_copper_link_pch_lpt, setup_link_ich8lan};

/// A device and the rest of the driver, as the functions under test see them.
struct Sim {
    regs: BTreeMap<u32, u32>,
    /// Values that a register gives before it settles at the one in `regs`.
    queued: BTreeMap<u32, Vec<u32>>,
    phy: BTreeMap<u32, u16>,
    kmrn: BTreeMap<u32, u16>,
    nvm: BTreeMap<u16, u16>,
    pci: BTreeMap<u32, u32>,
    flash: Flash,
    reset_blocked: bool,
    link: bool,
    speed: u16,
    duplex: u16,
    phy_type: PhyType,
    /// Calls that fail, with the number of the error.
    failing: Vec<(Call, u32)>,
    /// What was performed, in order.
    log: Vec<Action>,
}

/// The flash controller and its memory.
struct Flash {
    memory: Vec<u8>,
    status: u16,
    ctrl: u16,
    addr: u32,
    data: u32,
    gfpreg: u32,
    /// How many of the next cycles end with an error.
    errors: u32,
    /// Whether cycles never end.
    dead: bool,
}

impl Flash {
    fn new() -> Flash {
        Flash {
            memory: vec![0xFF; 0x4000],
            status: 0x4000,
            ctrl: 0,
            addr: 0,
            data: 0,
            gfpreg: 0,
            errors: 0,
            dead: false,
        }
    }

    fn set_word(&mut self, word: usize, value: u16) {
        self.memory[word * 2] = value as u8;
        self.memory[word * 2 + 1] = (value >> 8) as u8;
    }

    fn word(&self, word: usize) -> u16 {
        self.memory[word * 2] as u16 | (self.memory[word * 2 + 1] as u16) << 8
    }

    fn write_status(&mut self, value: u16) {
        // The done and error bits are cleared by writing 1.
        self.status &= !(value & 0x7);
    }

    fn write_ctrl(&mut self, value: u16) {
        self.ctrl = value & !1;
        if value & 1 == 0 || self.dead {
            return;
        }
        if self.errors > 0 {
            self.errors -= 1;
            self.status |= 0x3;
            return;
        }
        let bytes = ((value >> 8) & 3) as usize + 1;
        let at = self.addr as usize;
        if (value >> 1) & 3 == 2 {
            for i in 0..bytes {
                self.memory[at + i] = (self.data >> (8 * i)) as u8;
            }
        } else {
            self.data = 0;
            for i in 0..bytes {
                self.data |= (self.memory[at + i] as u32) << (8 * i);
            }
        }
        self.status |= 1;
    }
}

impl Sim {
    fn new() -> Sim {
        Sim {
            regs: BTreeMap::new(),
            queued: BTreeMap::new(),
            phy: BTreeMap::new(),
            kmrn: BTreeMap::new(),
            nvm: BTreeMap::new(),
            pci: BTreeMap::new(),
            flash: Flash::new(),
            reset_blocked: false,
            link: false,
            speed: 0,
            duplex: 0,
            phy_type: PhyType::Type_i217,
            failing: vec![],
            log: vec![],
        }
    }

    fn reg(&self, reg: u32) -> u32 {
        *self.regs.get(&reg).unwrap_or(&0)
    }

    fn phy_reg(&self, reg: u32) -> u16 {
        *self.phy.get(&reg).unwrap_or(&0)
    }

    /// Performs an operation, and gives its answer if it asks for one.
    fn perform(&mut self, action: &Action) -> Option<Reply> {
        self.log.push(action.clone());
        match action {
            Action::ReadRegister(reg) => {
                if let Some(values) = self.queued.get_mut(reg) {
                    if !values.is_empty() {
                        return Some(Reply::Value(values.remove(0)));
                    }
                }
                Some(Reply::Value(self.reg(*reg)))
            }
            Action::WriteRegister(reg, value) => {
                self.regs.insert(*reg, *value);
                None
            }
            Action::SetRegisterBit(reg, mask) => {
                let value = self.reg(*reg) | mask;
                self.regs.insert(*reg, value);
                None
            }
            Action::ClearRegisterBit(reg, mask) => {
                let value = self.reg(*reg) & !mask;
                self.regs.insert(*reg, value);
                None
            }
            Action::ReadFlashRegister(reg) => Some(Reply::Value(match *reg {
                0x00 => self.flash.gfpreg,
                0x04 => self.flash.status as u32 | (self.flash.ctrl as u32) << 16,
                0x08 => self.flash.addr,
                _ => self.flash.data,
            })),
            Action::ReadFlashRegister16(reg) => Some(Reply::Value(match *reg {
                0x04 => self.flash.status as u32,
                _ => self.flash.ctrl as u32,
            })),
            Action::WriteFlashRegister(reg, value) => {
                match *reg {
                    0x04 => {
                        self.flash.write_status(*value as u16);
                        if *value >> 16 != 0 {
                            self.flash.write_ctrl((*value >> 16) as u16);
                        }
                    }
                    0x08 => self.flash.addr = *value,
                    _ => self.flash.data = *value,
                }
                None
            }
            Action::WriteFlashRegister16(reg, value) => {
                match *reg {
                    0x04 => self.flash.write_status(*value),
                    _ => self.flash.write_ctrl(*value),
                }
                None
            }
            Action::ReadPciConfig(offset, _) => {
                Some(Reply::Value(*self.pci.get(offset).unwrap_or(&0)))
            }
            Action::PhyTypeFromId(_) => Some(Reply::PhyType(self.phy_type)),
            Action::Call(call, hw) => Some(self.call(call, **hw)),
            _ => None,
        }
    }

    fn call(&mut self, call: &Call, hw: Hw) -> Reply {
        let mut ret = Return { result: Ok(()), value: 0, extra: 0, hw };
        for (failing, number) in &self.failing {
            if failing == call {
                ret.result = Err(Error::Reported(*number));
                return Reply::Returned(Box::new(ret));
            }
        }
        match *call {
            Call::PhyReadReg(reg, _)
            | Call::PhyReadRegLocked(reg, _)
            | Call::ReadPhyRegHvLocked(reg, _)
            | Call::OpReadReg(_, reg, _) => ret.value = self.phy_reg(reg) as u32,
            Call::PhyWriteReg(reg, v)
            | Call::PhyWriteRegLocked(reg, v)
            | Call::WritePhyRegHvLocked(reg, v)
            | Call::OpWriteReg(_, reg, v) => {
                self.phy.insert(reg, v);
            }
            Call::ReadKmrnReg(reg, _) | Call::ReadKmrnRegLocked(reg, _) => {
                ret.value = *self.kmrn.get(&reg).unwrap_or(&0) as u32
            }
            Call::WriteKmrnReg(reg, v) | Call::WriteKmrnRegLocked(reg, v) => {
                self.kmrn.insert(reg, v);
            }
            Call::NvmReadWord(word, _) => {
                ret.value = *self.nvm.get(&word).unwrap_or(&0xFFFF) as u32
            }
            Call::NvmWriteWord(word, v) => {
                self.nvm.insert(word, v);
            }
            Call::CheckResetBlock => ret.value = self.reset_blocked as u32,
            Call::HasLinkGeneric(_, _, _) => ret.value = self.link as u32,
            Call::GetSpeedAndDuplexCopperGeneric(_, _) => {
                ret.value = self.speed as u32;
                ret.extra = self.duplex as u32;
            }
            Call::EnablePhyWakeupRegAccessBm(_) => ret.value = 0x77,
            Call::GetPhyId => ret.hw.phy.id = 0x0154_00A0,
            _ => {}
        }
        Reply::Returned(Box::new(ret))
    }

    fn calls(&self) -> Vec<Call> {
        let mut calls = vec![];
        for action in &self.log {
            if let Action::Call(call, _) = action {
                calls.push(*call);
            }
        }
        calls
    }

    fn count(&self, action: &Action) -> usize {
        self.log.iter().filter(|a| *a == action).count()
    }
}

/// Runs a function to its end against the device: whenever it stalls, performs
/// what it has recorded since, and starts it again with one more answer.
fn drive<T>(hw: Hw, sim: &mut Sim, f: impl Fn(&mut Adapter) -> T) -> (Hw, T) {
    let mut replies: Vec<Reply> = vec![];
    let mut performed = 0;
    loop {
        let mut adapter = Adapter::new(hw, replies.clone());
        let out = f(&mut adapter);
        for action in &adapter.io.trace[performed..] {
            let answer = sim.perform(action);
            assert_eq!(answer.is_some(), action.needs_answer());
            if let Some(reply) = answer {
                replies.push(reply);
            }
        }
        performed = adapter.io.trace.len();
        if !adapter.is_stalled() {
            assert_eq!(adapter.io.used, replies.len());
            return (adapter.hw, out);
        }
    }
}

fn hw(mac_type: MacType) -> Hw {
    let mut hw = Hw::new(mac_type, 0x15B7);
    hw.phy.phy_type = PhyType::Type_i217;
    hw.mac.rar_entry_count = 12;
    hw
}

const ADDRESS: [u8; 6] = [0x00, 0x1B, 0x21, 0xAA, 0xBB, 0xCC];

#[test]
fn base_receive_address() {
    let mut sim = Sim::new();
    let (_, res) =
        drive(hw(MacType::Mac_pch_lpt), &mut sim, |a| rar_set_pch_lpt(a, &ADDRESS, 0));
    assert_eq!(res, Ok(()));
    assert_eq!(sim.reg(E1000_RAL0), 0xAA21_1B00);
    assert_eq!(sim.reg(E1000_RAH0), 0x8000_CCBB);
    assert_eq!(sim.count(&Action::WriteFlush), 2);
    // The zero address is not valid.
    drive(hw(MacType::Mac_pch_lpt), &mut sim, |a| rar_set_pch_lpt(a, &[0; 6], 0)).1.unwrap();
    assert_eq!((sim.reg(E1000_RAL0), sim.reg(E1000_RAH0)), (0, 0));
}

#[test]
fn shared_receive_address() {
    let mut sim = Sim::new();
    let (_, res) =
        drive(hw(MacType::Mac_pch_lpt), &mut sim, |a| rar_set_pch_lpt(a, &ADDRESS, 11));
    assert_eq!(res, Ok(()));
    assert_eq!(sim.reg(0x05408 + 80), 0xAA21_1B00);
    assert_eq!(sim.reg(0x0540C + 80), 0x8000_CCBB);
    // The software flag is not held any more.
    assert_eq!(sim.reg(E1000_EXTCNF_CTRL), 0);
    assert_eq!(sim.count(&Action::WriteRegister(E1000_EXTCNF_CTRL, 0x20)), 1);
}

#[test]
fn receive_addresses_that_are_locked() {
    let set = |fwsm: u32, index: usize| {
        let mut sim = Sim::new();
        sim.regs.insert(E1000_FWSM, fwsm);
        let (_, res) = drive(hw(MacType::Mac_pch_lpt), &mut sim, |a| {
            rar_set_pch_lpt(a, &ADDRESS, index)
        });
        (res, sim.log.iter().any(|a| matches!(a, Action::WriteRegister(_, _))))
    };
    // All of them.
    assert_eq!(set(1 << 7, 3), (Err(Error::ReceiveAddress(3)), false));
    // Those beyond the fourth.
    assert_eq!(set(4 << 7, 4), (Ok(()), true));
    assert_eq!(set(4 << 7, 5), (Ok(()), false));
    // Beyond the last.
    assert_eq!(set(0, 12), (Ok(()), false));
    assert_eq!(set(1 << 7, 12), (Ok(()), false));
}

#[test]
fn receive_address_that_does_not_read_back() {
    let mut sim = Sim::new();
    sim.queued.insert(0x05408, vec![1]);
    let (_, res) =
        drive(hw(MacType::Mac_pch_lpt), &mut sim, |a| rar_set_pch_lpt(a, &ADDRESS, 1));
    assert_eq!(res, Err(Error::ReceiveAddress(1)));
    let mut sim = Sim::new();
    sim.queued.insert(0x0540C, vec![1]);
    let (_, res) =
        drive(hw(MacType::Mac_pch_lpt), &mut sim, |a| rar_set_pch_lpt(a, &ADDRESS, 1));
    assert_eq!(res, Err(Error::ReceiveAddress(1)));
    let mut sim = Sim::new();
    sim.regs.insert(E1000_EXTCNF_CTRL, 0x20);
    let (_, res) =
        drive(hw(MacType::Mac_pch_lpt), &mut sim, |a| rar_set_pch_lpt(a, &ADDRESS, 1));
    assert_eq!(res, Err(Error::SwLocked));
    let mut sim = Sim::new();
    sim.failing = vec![(Call::Incomplete(Feature::RarSetPch2lan), 6)];
    let (_, res) =
        drive(hw(MacType::Mac_pch2lan), &mut sim, |a| rar_set_pch2lan(a, &ADDRESS, 1));
    assert_eq!(res, Err(Error::Reported(6)));
}

#[test]
fn multicast_table_is_copied() {
    let mut state = hw(MacType::Mac_pch_lpt);
    state.mac.mta_reg_count = 32;
    state.mac.mta_shadow[0] = 0x8000_0001;
    state.mac.mta_shadow[31] = 0x1234_5678;
    state.phy.ops.write_reg_page = Some(Func::WritePhyRegPageHv);
    let mut sim = Sim::new();
    let (_, res) = drive(state, &mut sim, |a| update_mc_addr_list_pch2lan(a, 2));
    assert_eq!(res, Ok(()));
    let calls = sim.calls();
    assert_eq!(
        calls[..3],
        [
            Call::UpdateMcAddrListGeneric(2),
            Call::PhyAcquire,
            Call::EnablePhyWakeupRegAccessBm(0)
        ]
    );
    assert_eq!(
        calls[67..],
        [Call::DisablePhyWakeupRegAccessBm(0x77), Call::PhyRelease]
    );
    assert_eq!(calls.len(), 69);
    // Page 800, registers 128 and 129, 190 and 191.
    assert_eq!(sim.phy_reg(0x0080_6400), 0x0001);
    assert_eq!(sim.phy_reg(0x0080_6401), 0x8000);
    assert_eq!(sim.phy_reg(0x00A0_641E), 0x5678);
    assert_eq!(sim.phy_reg(0x00A0_641F), 0x1234);
}

#[test]
fn multicast_table_errors() {
    let mut state = hw(MacType::Mac_pch_lpt);
    state.mac.mta_reg_count = 2;
    // Without the function to write them nothing is copied.
    let mut sim = Sim::new();
    let (_, res) = drive(state, &mut sim, |a| update_mc_addr_list_pch2lan(a, 0));
    assert_eq!(res, Ok(()));
    assert_eq!(sim.calls().len(), 4);
    let f = Func::WritePhyRegPageHv;
    state.phy.ops.write_reg_page = Some(f);
    for (call, number) in [
        (Call::EnablePhyWakeupRegAccessBm(0), 1),
        (Call::OpWriteReg(f, 0x0080_6400, 0), 2),
        (Call::OpWriteReg(f, 0x0080_6403, 0), 3),
        (Call::DisablePhyWakeupRegAccessBm(0x77), 4),
    ] {
        sim.failing = vec![(call, number)];
        let (_, res) = drive(state, &mut sim, |a| update_mc_addr_list_pch2lan(a, 0));
        assert_eq!(res, Err(Error::Reported(number)));
        assert_eq!(sim.calls().last(), Some(&Call::PhyRelease));
    }
    sim.failing = vec![(Call::PhyAcquire, 5)];
    let (_, res) = drive(state, &mut sim, |a| update_mc_addr_list_pch2lan(a, 0));
    assert_eq!(res, Err(Error::Reported(5)));
}

#[test]
fn counters_are_read() {
    let mut state = hw(MacType::Mac_pch_lpt);
    state.phy.ops.set_page = Some(Func::SetPageIgp);
    state.phy.ops.read_reg_page = Some(Func::ReadPhyRegPageHv);
    let mut sim = Sim::new();
    let (_, res) = drive(state, &mut sim, |a| clear_hw_cntrs_ich8lan(a));
    assert_eq!(res, Ok(()));
    let reads: Vec<u32> = sim
        .log
        .iter()
        .filter_map(|a| if let Action::ReadRegister(reg) = a { Some(*reg) } else { None })
        .collect();
    assert_eq!(
        reads,
        vec![
            0x04004, 0x0400C, 0x04034, 0x0403C, 0x040F8, 0x040FC, 0x040B4, 0x040B8, 0x040BC,
            0x04100, 0x04124
        ]
    );
    let calls = sim.calls();
    assert_eq!(calls.len(), 18);
    assert_eq!(
        calls[..3],
        [
            Call::ClearHwCntrsBaseGeneric,
            Call::PhyAcquire,
            Call::OpSetPage(Func::SetPageIgp, 778 << 5)
        ]
    );
    assert_eq!(calls[3], Call::OpReadReg(Func::ReadPhyRegPageHv, 0x6150, 0));
    assert_eq!(calls[16], Call::OpReadReg(Func::ReadPhyRegPageHv, 0x615E, 0));
    assert_eq!(calls[17], Call::PhyRelease);
    // Each read is handed what the one before it gave.
    sim.phy.insert(0x6150, 9);
    sim.log.clear();
    drive(state, &mut sim, |a| clear_hw_cntrs_ich8lan(a)).1.unwrap();
    assert_eq!(sim.calls()[4], Call::OpReadReg(Func::ReadPhyRegPageHv, 0x6151, 9));
    assert_eq!(sim.calls()[5], Call::OpReadReg(Func::ReadPhyRegPageHv, 0x6152, 0));
}

#[test]
fn counters_of_a_phy_without_functions() {
    let mut sim = Sim::new();
    let mut state = hw(MacType::Mac_pch_lpt);
    drive(state, &mut sim, |a| clear_hw_cntrs_ich8lan(a)).1.unwrap();
    assert_eq!(
        sim.calls(),
        vec![Call::ClearHwCntrsBaseGeneric, Call::PhyAcquire, Call::PhyRelease]
    );
    state.phy.ops.set_page = Some(Func::SetPageIgp);
    sim.log.clear();
    drive(state, &mut sim, |a| clear_hw_cntrs_ich8lan(a)).1.unwrap();
    assert_eq!(sim.calls().len(), 4);
    state.phy.ops.read_reg_page = Some(Func::ReadPhyRegPageHv);
    sim.failing = vec![(Call::OpReadReg(Func::ReadPhyRegPageHv, 0x6151, 0), 3)];
    let (_, res) = drive(state, &mut sim, |a| clear_hw_cntrs_ich8lan(a));
    assert_eq!(res, Err(Error::Reported(3)));
    // The semaphore stays held.
    assert_ne!(sim.calls().last(), Some(&Call::PhyRelease));
    state.phy.phy_type = PhyType::Type_igp_3;
    sim.log.clear();
    drive(state, &mut sim, |a| clear_hw_cntrs_ich8lan(a)).1.unwrap();
    assert_eq!(sim.calls(), vec![Call::ClearHwCntrsBaseGeneric]);
}

#[test]
fn led_modes_are_stored() {
    let mut sim = Sim::new();
    sim.regs.insert(E1000_LEDCTL, 0xFFF0_0000);
    sim.nvm.insert(4, 0x8564);
    let mut state = hw(MacType::Mac_pch_lpt);
    state.nvm.ops.valid_led_default = Some(Func::ValidLedDefaultIch8lan);
    state.nvm.ops.read = Some(Func::Other(1));
    let (after, res) = drive(state, &mut sim, |a| id_led_init_pchlan(a));
    assert_eq!(res, Ok(()));
    assert_eq!(after.mac.ledctl_default, 0xFFF0_0000);
    // LED 0: on, default. LED 1: on, off. LED 2: on, on. LED 3: off, on.
    let on_off = |l0: u32, l1: u32, l2: u32, l3: u32| l0 | l1 << 5 | l2 << 10 | l3 << 15;
    assert_eq!(after.mac.ledctl_mode1, 0xFFF0_0000 | on_off(0x2, 0x2, 0x2, 0xA));
    assert_eq!(after.mac.ledctl_mode2, 0xFFF0_0000 | on_off(0x0, 0xA, 0x2, 0x2));
    state.nvm.ops.valid_led_default = None;
    let (_, res) = drive(state, &mut sim, |a| id_led_init_pchlan(a));
    assert_eq!(res, Err(Error::NoFunction));
}

#[test]
fn leds_of_ich_devices() {
    let mut state = hw(MacType::Mac_ich9lan);
    state.phy.phy_type = PhyType::Type_igp_3;
    state.mac.ledctl_default = 1;
    state.mac.ledctl_mode1 = 2;
    state.mac.ledctl_mode2 = 3;
    let mut sim = Sim::new();
    drive(state, &mut sim, |a| led_on_ich8lan(a)).1.unwrap();
    assert_eq!(sim.reg(E1000_LEDCTL), 3);
    drive(state, &mut sim, |a| led_off_ich8lan(a)).1.unwrap();
    assert_eq!(sim.reg(E1000_LEDCTL), 2);
    drive(state, &mut sim, |a| cleanup_led_ich8lan(a)).1.unwrap();
    assert_eq!(sim.reg(E1000_LEDCTL), 1);
    state.phy.phy_type = PhyType::Type_ife;
    drive(state, &mut sim, |a| led_on_ich8lan(a)).1.unwrap();
    assert_eq!(sim.phy_reg(0x1B), 0x27);
    drive(state, &mut sim, |a| led_off_ich8lan(a)).1.unwrap();
    assert_eq!(sim.phy_reg(0x1B), 0x26);
    drive(state, &mut sim, |a| cleanup_led_ich8lan(a)).1.unwrap();
    assert_eq!(sim.phy_reg(0x1B), 0);
    sim.failing = vec![(Call::PhyWriteReg(0x1B, 0), 4)];
    let (_, res) = drive(state, &mut sim, |a| cleanup_led_ich8lan(a));
    assert_eq!(res, Err(Error::Reported(4)));
}

#[test]
fn leds_of_pch_devices() {
    let mut state = hw(MacType::Mac_pch_lpt);
    state.mac.ledctl_default = 0x7_1234;
    // LED 0 shows the link, LED 1 shows it inverted, LED 2 does something else.
    state.mac.ledctl_mode1 = 0x2 | 0xA << 5 | 0x3 << 10;
    state.mac.ledctl_mode2 = 0xA | 0x2 << 5 | 0x2 << 10;
    let mut sim = Sim::new();
    // Without a link the link LEDs are inverted.
    drive(state, &mut sim, |a| led_off_pchlan(a)).1.unwrap();
    assert_eq!(sim.phy_reg(HV_LED_CONFIG), 0xA | 0x2 << 5 | 0x3 << 10);
    drive(state, &mut sim, |a| led_on_pchlan(a)).1.unwrap();
    assert_eq!(sim.phy_reg(HV_LED_CONFIG), 0x2 | 0xA << 5 | 0xA << 10);
    sim.regs.insert(E1000_STATUS, 2);
    drive(state, &mut sim, |a| led_off_pchlan(a)).1.unwrap();
    assert_eq!(sim.phy_reg(HV_LED_CONFIG), 0x2 | 0xA << 5 | 0x3 << 10);
    drive(state, &mut sim, |a| led_on_pchlan(a)).1.unwrap();
    assert_eq!(sim.phy_reg(HV_LED_CONFIG), 0xA | 0x2 << 5 | 0x2 << 10);
    drive(state, &mut sim, |a| cleanup_led_pchlan(a)).1.unwrap();
    assert_eq!(sim.phy_reg(HV_LED_CONFIG), 0x1234);
    drive(state, &mut sim, |a| setup_led_pchlan(a)).1.unwrap();
    assert_eq!(sim.phy_reg(HV_LED_CONFIG), 0x0D42);
}

#[test]
fn copper_link_setup() {
    let mut sim = Sim::new();
    sim.regs.insert(E1000_CTRL, 0x1801);
    let (_, res) =
        drive(hw(MacType::Mac_pch_lpt), &mut sim, |a| setup_copper_link_pch_lpt(a));
    assert_eq!(res, Ok(()));
    assert_eq!(sim.reg(E1000_CTRL), 0x41);
    assert_eq!(sim.calls(), vec![Call::CopperLinkSetup82577, Call::SetupCopperLinkGeneric]);
    for (call, number) in [(Call::CopperLinkSetup82577, 1), (Call::SetupCopperLinkGeneric, 2)] {
        sim.failing = vec![(call, number)];
        let (_, res) =
            drive(hw(MacType::Mac_pch_lpt), &mut sim, |a| setup_copper_link_pch_lpt(a));
        assert_eq!(res, Err(Error::Reported(number)));
    }
}

#[test]
fn link_setup_with_flow_control() {
    let mut state = hw(MacType::Mac_pch_lpt);
    state.fc.requested_mode = FcMode::Default;
    state.fc.pause_time = 0x0680;
    state.fc.refresh_time = 0x0400;
    state.mac.ops.setup_physical_interface = Some(Func::SetupCopperLinkPchLpt);
    let mut sim = Sim::new();
    let (after, res) = drive(state, &mut sim, |a| setup_link_ich8lan(a));
    assert_eq!(res, Ok(()));
    assert_eq!(after.fc.requested_mode, FcMode::Full);
    assert_eq!(after.fc.current_mode, FcMode::Full);
    assert_eq!(sim.reg(E1000_FCTTV), 0x0680);
    assert_eq!(sim.reg(E1000_FCRTV_PCH), 0x0400);
    assert_eq!(sim.phy_reg(BM_PORT_PAUSE_TIME), 0x0680);
    assert_eq!(sim.calls().last(), Some(&Call::SetFcWatermarksGeneric));
    // A mode that was asked for is kept, and an error of the watermarks too.
    state.fc.requested_mode = FcMode::RxPause;
    state.phy.phy_type = PhyType::Type_igp_3;
    sim.failing = vec![(Call::SetFcWatermarksGeneric, 1)];
    sim.log.clear();
    let (after, res) = drive(state, &mut sim, |a| setup_link_ich8lan(a));
    assert_eq!(res, Ok(()));
    assert_eq!(after.fc.current_mode, FcMode::RxPause);
    assert!(!sim.calls().contains(&Call::PhyWriteReg(BM_PORT_PAUSE_TIME, 0x0680)));
}

#[test]
fn link_setup_that_is_blocked_or_fails() {
    let mut state = hw(MacType::Mac_pch_lpt);
    let mut sim = Sim::new();
    sim.reset_blocked = true;
    let (after, res) = drive(state, &mut sim, |a| setup_link_ich8lan(a));
    assert_eq!(res, Ok(()));
    assert_eq!(after, state);
    assert_eq!(sim.calls(), vec![Call::CheckResetBlock]);
    sim.reset_blocked = false;
    let (_, res) = drive(state, &mut sim, |a| setup_link_ich8lan(a));
    assert_eq!(res, Err(Error::NoFunction));
    state.mac.ops.setup_physical_interface = Some(Func::SetupCopperLinkIch8lan);
    sim.failing = vec![(Call::Incomplete(Feature::SetupCopperLinkIch8lan), 2)];
    let (_, res) = drive(state, &mut sim, |a| setup_link_ich8lan(a));
    assert_eq!(res, Err(Error::Reported(2)));
    state.mac.ops.setup_physical_interface = Some(Func::Other(5));
    sim.failing = vec![(Call::Op(Func::Other(5)), 3)];
    let (_, res) = drive(state, &mut sim, |a| setup_link_ich8lan(a));
    assert_eq!(res, Err(Error::Reported(3)));
    sim.failing = vec![(Call::PhyWriteReg(BM_PORT_PAUSE_TIME, 0), 4)];
    let (_, res) = drive(state, &mut sim, |a| setup_link_ich8lan(a));
    assert_eq!(res, Err(Error::Reported(4)));
}

#[test]
fn reset_of_mac_and_phy() {
    let mut state = hw(MacType::Mac_pch_lpt);
    state.phy.ops.get_cfg_done = Some(Func::Other(2));
    let mut sim = Sim::new();
    sim.regs.insert(E1000_CTRL, 0x41);
    let (_, res) = drive(state, &mut sim, |a| reset_hw_ich8lan(a));
    assert_eq!(res, Ok(()));
    assert_eq!(sim.reg(E1000_IMC), 0xFFFF_FFFF);
    assert_eq!(sim.reg(E1000_RCTL), 0);
    assert_eq!(sim.reg(E1000_TCTL), 8);
    assert_eq!(sim.reg(E1000_KABGTXD), 0x0005_0000);
    let write = Action::WriteRegister(E1000_CTRL, 0x8400_0041);
    let at = sim.log.iter().position(|a| *a == write).unwrap();
    // No flush may follow.
    assert_eq!(sim.log[at + 1], Action::MsecDelay(20));
    assert!(sim.calls().contains(&Call::Op(Func::Other(2))));
    // Without the function to wait for the configuration there is an error.
    state.phy.ops.get_cfg_done = None;
    let (_, res) = drive(state, &mut sim, |a| reset_hw_ich8lan(a));
    assert_eq!(res, Err(Error::NoFunction));
    // But not if the PHY is not reset.
    sim.reset_blocked = true;
    sim.regs.insert(E1000_CTRL, 0x41);
    let (_, res) = drive(state, &mut sim, |a| reset_hw_ich8lan(a));
    assert_eq!(res, Ok(()));
    assert_eq!(sim.reg(E1000_CTRL), 0x0400_0041);
}

#[test]
fn reset_of_early_families() {
    let mut state = hw(MacType::Mac_pchlan);
    let mut sim = Sim::new();
    sim.reset_blocked = true;
    sim.nvm.insert(0x1B, 1);
    let (after, res) = drive(state, &mut sim, |a| reset_hw_ich8lan(a));
    assert_eq!(res, Ok(()));
    assert!(after.dev_spec.nvm_k1_enabled);
    assert_eq!(sim.reg(E1000_CRC_OFFSET), 0x6565_6565);
    sim.nvm.insert(0x1B, 0xFFFE);
    let (after, _) = drive(after, &mut sim, |a| reset_hw_ich8lan(a));
    assert!(!after.dev_spec.nvm_k1_enabled);
    sim.failing = vec![(Call::NvmReadWord(0x1B, 0), 3)];
    let (_, res) = drive(state, &mut sim, |a| reset_hw_ich8lan(a));
    assert_eq!(res, Err(Error::Reported(3)));

    state.mac.mac_type = MacType::Mac_ich8lan;
    let mut sim = Sim::new();
    sim.reset_blocked = true;
    drive(state, &mut sim, |a| reset_hw_ich8lan(a)).1.unwrap();
    assert_eq!((sim.reg(E1000_PBA), sim.reg(E1000_PBS)), (8, 16));

    // On an 82579 the configuration by hardware is held back.
    state.mac.mac_type = MacType::Mac_pch2lan;
    state.phy.ops.get_cfg_done = Some(Func::Other(2));
    let mut sim = Sim::new();
    sim.regs.insert(E1000_FEXTNVM3, 0x0400_0001);
    drive(state, &mut sim, |a| reset_hw_ich8lan(a)).1.unwrap();
    assert_eq!(sim.reg(E1000_FEXTNVM3), 0x0800_0001);
    assert_eq!(sim.count(&Action::SetRegisterBit(E1000_EXTCNF_CTRL, 0x80)), 1);
}

#[test]
fn hardware_bits_of_lynx_point() {
    let mut sim = Sim::new();
    sim.regs.insert(E1000_TARC1, 0x1000_0001);
    sim.regs.insert(E1000_TCTL, 0x1000_0000);
    drive(hw(MacType::Mac_pch_lpt), &mut sim, |a| initialize_hw_bits_ich8lan(a));
    assert_eq!(sim.reg(E1000_CTRL_EXT), 0x0040_0000);
    assert_eq!(sim.reg(E1000_TXDCTL0), 0x0040_0000);
    assert_eq!(sim.reg(E1000_TXDCTL1), 0x0040_0000);
    assert_eq!(sim.reg(E1000_TARC0), 0x0D80_0000);
    assert_eq!(sim.reg(E1000_TARC1), 0x4500_0001);
    assert_eq!(sim.reg(E1000_RFCTL), 0xC0);
    assert_eq!(sim.reg(E1000_PBECCSTS), 0x0001_0000);
    assert_eq!(sim.reg(E1000_CTRL), 0x0008_0000);
}

#[test]
fn hardware_bits_of_early_families() {
    let mut sim = Sim::new();
    sim.regs.insert(E1000_STATUS, 0x8000_0003);
    drive(hw(MacType::Mac_ich8lan), &mut sim, |a| initialize_hw_bits_ich8lan(a));
    assert_eq!(sim.reg(E1000_TARC0), 0x3D80_0000);
    assert_eq!(sim.reg(E1000_TARC1), 0x5500_0000);
    assert_eq!(sim.reg(E1000_STATUS), 3);
    assert_eq!(sim.reg(E1000_RFCTL), 0x0003_00C0);
    assert_eq!(sim.reg(E1000_CTRL), 0);
    let mut sim = Sim::new();
    drive(hw(MacType::Mac_pchlan), &mut sim, |a| initialize_hw_bits_ich8lan(a));
    assert_eq!(sim.reg(E1000_CTRL_EXT), 0x0050_0000);
}

#[test]
fn hardware_is_initialized() {
    let mut state = hw(MacType::Mac_pch_lpt);
    state.mac.mta_reg_count = 3;
    state.mac.ops.setup_link = Some(Func::Other(4));
    let mut sim = Sim::new();
    sim.regs.insert(E1000_TXDCTL0, 0x003F_0020);
    let (_, res) = drive(state, &mut sim, |a| init_hw_ich8lan(a));
    assert_eq!(res, Ok(()));
    // The write-back threshold bits give way, those for other uses stay.
    assert_eq!(sim.reg(E1000_TXDCTL0), 0x0141_001F);
    assert_eq!(sim.reg(E1000_TXDCTL1), 0x0141_001F);
    assert_eq!(sim.reg(E1000_CTRL_EXT), 0x0042_0000);
    assert!(sim.calls().contains(&Call::InitRxAddrsGeneric(12)));
    assert!(sim.calls().contains(&Call::SetPcieNoSnoopGeneric(0xFFFF_FFC0)));
    for i in 0..3 {
        assert_eq!(sim.count(&Action::WriteRegisterArray(E1000_MTA, i, 0)), 1);
    }
    assert_eq!(sim.count(&Action::WriteRegisterArray(E1000_MTA, 3, 0)), 0);
    let calls = sim.calls();
    let at = |c: &Call| calls.iter().position(|x| x == c).unwrap();
    assert!(at(&Call::Op(Func::Other(4))) < at(&Call::ClearHwCntrsBaseGeneric));
}

#[test]
fn initialization_reports_the_link() {
    let mut state = hw(MacType::Mac_ich8lan);
    state.phy.phy_type = PhyType::Type_igp_3;
    let mut sim = Sim::new();
    let (_, res) = drive(state, &mut sim, |a| init_hw_ich8lan(a));
    assert_eq!(res, Err(Error::NoFunction));
    // The counters are cleared nevertheless.
    assert_eq!(sim.calls().last(), Some(&Call::ClearHwCntrsBaseGeneric));
    assert!(sim.calls().contains(&Call::SetPcieNoSnoopGeneric(0x3F)));
    // An error of the counters takes precedence.
    state.phy.phy_type = PhyType::Type_i217;
    sim.failing = vec![(Call::PhyAcquire, 6)];
    let (_, res) = drive(state, &mut sim, |a| init_hw_ich8lan(a));
    assert_eq!(res, Err(Error::Reported(6)));
    // Errors in initializing the LEDs are passed over.
    state.mac.ops.id_led_init = Some(Func::Other(9));
    state.mac.ops.setup_link = Some(Func::SetupLinkIch8lan);
    state.mac.ops.setup_physical_interface = Some(Func::SetupCopperLinkPchLpt);
    sim.failing = vec![(Call::Op(Func::Other(9)), 7)];
    let (_, res) = drive(state, &mut sim, |a| init_hw_ich8lan(a));
    assert_eq!(res, Ok(()));
}

#[test]
fn bus_information() {
    let mut state = hw(MacType::Mac_pch_lpt);
    let mut sim = Sim::new();
    let (after, res) = drive(state, &mut sim, |a| get_bus_info_ich8lan(a));
    assert_eq!(res, Ok(()));
    assert_eq!(after.bus.width, BusWidth::Width_pcie_x1);
    state.bus.width = BusWidth::Other;
    sim.failing = vec![(Call::GetBusInfoPcieGeneric, 5)];
    let (after, res) = drive(state, &mut sim, |a| get_bus_info_ich8lan(a));
    assert_eq!(res, Err(Error::Reported(5)));
    assert_eq!(after.bus.width, BusWidth::Other);
}
