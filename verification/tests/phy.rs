//! The PHY and the software flag, against a simulated device.

#![allow(dead_code)]

use std::collections::BTreeMap;

use e1000_ich8lan::consts::{
    E1000_CTRL, E1000_CTRL_EXT, E1000_EECD, E1000_EXTCNF_CTRL, E1000_EXTCNF_SIZE, E1000_FEXTNVM,
    E1000_FEXTNVM3, E1000_FEXTNVM7, E1000_FFLT_DBG, E1000_FWSM, E1000_H2ME, E1000_LEDCTL,
    E1000_PHY_CTRL, E1000_RCTL, E1000_STATUS, E1000_STRAP,
};
use e1000_ich8lan::emi::{access_emi_reg_locked, read_emi_reg_locked, write_emi_reg_locked};
use e1000_ich8lan::error::Error;
use e1000_ich8lan::hw::{Func, Hw, MacType, PhyType, UlpState};
use e1000_ich8lan::io::{Action, Adapter, Call, Feature, Reply, Return};
use e1000_ich8lan::jumbo::lv_jumbo_workaround;
use e1000_ich8lan::lanphypc::toggle_lanphypc_pch_lpt;
use e1000_ich8lan::phy_access::{
    init_phy_params_pchlan, init_phy_workarounds_pchlan, phy_is_accessible_pchlan,
    set_mdio_slow_mode_hv,
};
use e1000_ich8lan::phy_config::{
    get_cfg_done_ich8lan, hv_phy_workarounds_ich8lan, lv_phy_workarounds_ich8lan,
    oem_bits_config_ich8lan, phy_hw_reset_ich8lan, post_phy_reset_ich8lan,
    set_d0_lplu_state_ich8lan, set_d3_lplu_state_ich8lan, set_lplu_state_pchlan,
    sw_lcd_config_ich8lan, write_smbus_addr,
};
use e1000_ich8lan::swflag::{
    acquire_swflag_ich8lan, check_reset_block_ich8lan, gate_hw_phy_config_ich8lan,
    lan_init_done_ich8lan, release_swflag_ich8lan,
};
use e1000_ich8lan::ulp::{disable_ulp_lpt_lp, enable_ulp_lpt_lp};

/// A device and the rest of the driver, as the functions under test see them.
struct Sim {
    regs: BTreeMap<u32, u32>,
    /// Values that a register gives before it settles at the one in `regs`.
    queued: BTreeMap<u32, Vec<u32>>,
    phy: BTreeMap<u32, u16>,
    kmrn: BTreeMap<u32, u16>,
    nvm: BTreeMap<u16, u16>,
    pci: BTreeMap<u32, u32>,
    flash: Flash,
    reset_blocked: bool,
    link: bool,
    speed: u16,
    duplex: u16,
    phy_type: PhyType,
    /// Calls that fail, with the number of the error.
    failing: Vec<(Call, u32)>,
    /// What was performed, in order.
    log: Vec<Action>,
}

/// The flash controller and its memory.
struct Flash {
    memory: Vec<u8>,
    status: u16,
    ctrl: u16,
    addr: u32,
    data: u32,
    gfpreg: u32,
    /// How many of the next cycles end with an error.
    errors: u32,
    /// Whether cycles never end.
    dead: bool,
}

impl Flash {
    fn new() -> Flash {
        Flash {
            memory: vec![0xFF; 0x4000],
            status: 0x4000,
            ctrl: 0,
            addr: 0,
            data: 0,
            gfpreg: 0,
            errors: 0,
            dead: false,
        }
    }

    fn set_word(&mut self, word: usize, value: u16) {
        self.memory[word * 2] = value as u8;
        self.memory[word * 2 + 1] = (value >> 8) as u8;
    }

    fn word(&self, word: usize) -> u16 {
        self.memory[word * 2] as u16 | (self.memory[word * 2 + 1] as u16) << 8
    }

    fn write_status(&mut self, value: u16) {
        // The done and error bits are cleared by writing 1.
        self.status &= !(value & 0x7);
    }

    fn write_ctrl(&mut self, value: u16) {
        self.ctrl = value & !1;
        if value & 1 == 0 || self.dead {
            return;
        }
        if self.errors > 0 {
            self.errors -= 1;
            self.status |= 0x3;
            return;
        }
        let bytes = ((value >> 8) & 3) as usize + 1;
        let at = self.addr as usize;
        if (value >> 1) & 3 == 2 {
            for i in 0..bytes {
                self.memory[at + i] = (self.data >> (8 * i)) as u8;
            }
        } else {
            self.data = 0;
            for i in 0..bytes {
                self.data |= (self.memory[at + i] as u32) << (8 * i);
            }
        }
        self.status |= 1;
    }
}

impl Sim {
    fn new() -> Sim {
        Sim {
            regs: BTreeMap::new(),
            queued: BTreeMap::new(),
            phy: BTreeMap::new(),
            kmrn: BTreeMap::new(),
            nvm: BTreeMap::new(),
            pci: BTreeMap::new(),
            flash: Flash::new(),
            reset_blocked: false,
            link: false,
            speed: 0,
            duplex: 0,
            phy_type: PhyType::Type_i217,
            failing: vec![],
            log: vec![],
        }
    }

    fn reg(&self, reg: u32) -> u32 {
        *self.regs.get(&reg).unwrap_or(&0)
    }

    fn phy_reg(&self, reg: u32) -> u16 {
        *self.phy.get(&reg).unwrap_or(&0)
    }

    /// Performs an operation, and gives its answer if it asks for one.
    fn perform(&mut self, action: &Action) -> Option<Reply> {
        self.log.push(action.clone());
        match action {
            Action::ReadRegister(reg) => {
                if let Some(values) = self.queued.get_mut(reg) {
                    if !values.is_empty() {
                        return Some(Reply::Value(values.remove(0)));
                    }
                }
                Some(Reply::Value(self.reg(*reg)))
            }
            Action::WriteRegister(reg, value) => {
                self.regs.insert(*reg, *value);
                None
            }
            Action::SetRegisterBit(reg, mask) => {
                let value = self.reg(*reg) | mask;
                self.regs.insert(*reg, value);
                None
            }
            Action::ClearRegisterBit(reg, mask) => {
                let value = self.reg(*reg) & !mask;
                self.regs.insert(*reg, value);
                None
            }
            Action::ReadFlashRegister(reg) => Some(Reply::Value(match *reg {
                0x00 => self.flash.gfpreg,
                0x04 => self.flash.status as u32 | (self.flash.ctrl as u32) << 16,
                0x08 => self.flash.addr,
                _ => self.flash.data,
            })),
            Action::ReadFlashRegister16(reg) => Some(Reply::Value(match *reg {
                0x04 => self.flash.status as u32,
                _ => self.flash.ctrl as u32,
            })),
            Action::WriteFlashRegister(reg, value) => {
                match *reg {
                    0x04 => {
                        self.flash.write_status(*value as u16);
                        if *value >> 16 != 0 {
                            self.flash.write_ctrl((*value >> 16) as u16);
                        }
                    }
                    0x08 => self.flash.addr = *value,
                    _ => self.flash.data = *value,
                }
                None
            }
            Action::WriteFlashRegister16(reg, value) => {
                match *reg {
                    0x04 => self.flash.write_status(*value),
                    _ => self.flash.write_ctrl(*value),
                }
                None
            }
            Action::ReadPciConfig(offset, _) => {
                Some(Reply::Value(*self.pci.get(offset).unwrap_or(&0)))
            }
            Action::PhyTypeFromId(_) => Some(Reply::PhyType(self.phy_type)),
            Action::Call(call, hw) => Some(self.call(call, **hw)),
            _ => None,
        }
    }

    fn call(&mut self, call: &Call, hw: Hw) -> Reply {
        let mut ret = Return { result: Ok(()), value: 0, extra: 0, hw };
        for (failing, number) in &self.failing {
            if failing == call {
                ret.result = Err(Error::Reported(*number));
                return Reply::Returned(Box::new(ret));
            }
        }
        match *call {
            Call::PhyReadReg(reg, _)
            | Call::PhyReadRegLocked(reg, _)
            | Call::ReadPhyRegHvLocked(reg, _)
            | Call::OpReadReg(_, reg, _) => ret.value = self.phy_reg(reg) as u32,
            Call::PhyWriteReg(reg, v)
            | Call::PhyWriteRegLocked(reg, v)
            | Call::WritePhyRegHvLocked(reg, v)
            | Call::OpWriteReg(_, reg, v) => {
                self.phy.insert(reg, v);
            }
            Call::ReadKmrnReg(reg, _) | Call::ReadKmrnRegLocked(reg, _) => {
                ret.value = *self.kmrn.get(&reg).unwrap_or(&0) as u32
            }
            Call::WriteKmrnReg(reg, v) | Call::WriteKmrnRegLocked(reg, v) => {
                self.kmrn.insert(reg, v);
            }
            Call::NvmReadWord(word, _) => {
                ret.value = *self.nvm.get(&word).unwrap_or(&0xFFFF) as u32
            }
            Call::NvmWriteWord(word, v) => {
                self.nvm.insert(word, v);
            }
            Call::CheckResetBlock => ret.value = self.reset_blocked as u32,
            Call::HasLinkGeneric(_, _, _) => ret.value = self.link as u32,
            Call::GetSpeedAndDuplexCopperGeneric(_, _) => {
                ret.value = self.speed as u32;
                ret.extra = self.duplex as u32;
            }
            Call::EnablePhyWakeupRegAccessBm(_) => ret.value = 0x77,
            Call::GetPhyId => ret.hw.phy.id = 0x0154_00A0,
            _ => {}
        }
        Reply::Returned(Box::new(ret))
    }

    fn calls(&self) -> Vec<Call> {
        let mut calls = vec![];
        for action in &self.log {
            if let Action::Call(call, _) = action {
                calls.push(*call);
            }
        }
        calls
    }

    fn count(&self, action: &Action) -> usize {
        self.log.iter().filter(|a| *a == action).count()
    }
}

/// Runs a function to its end against the device: whenever it stalls, performs
/// what it has recorded since, and starts it again with one more answer.
fn drive<T>(hw: Hw, sim: &mut Sim, f: impl Fn(&mut Adapter) -> T) -> (Hw, T) {
    let mut replies: Vec<Reply> = vec![];
    let mut performed = 0;
    loop {
        let mut adapter = Adapter::new(hw, replies.clone());
        let out = f(&mut adapter);
        for action in &adapter.io.trace[performed..] {
            let answer = sim.perform(action);
            assert_eq!(answer.is_some(), action.needs_answer());
            if let Some(reply) = answer {
                replies.push(reply);
            }
        }
        performed = adapter.io.trace.len();
        if !adapter.is_stalled() {
            assert_eq!(adapter.io.used, replies.len());
            return (adapter.hw, out);
        }
    }
}

fn hw(mac_type: MacType) -> Hw {
    Hw::new(mac_type, 0x1559)
}

#[test]
fn swflag_is_acquired_and_released() {
    let mut sim = Sim::new();
    sim.regs.insert(E1000_EXTCNF_CTRL, 0x0001_0008);
    let (_, res) = drive(hw(MacType::Mac_pch_lpt), &mut sim, |a| acquire_swflag_ich8lan(a));
    assert_eq!(res, Ok(()));
    assert_eq!(sim.reg(E1000_EXTCNF_CTRL), 0x0001_0028);
    let (_, res) = drive(hw(MacType::Mac_pch_lpt), &mut sim, |a| release_swflag_ich8lan(a));
    assert_eq!(res, Ok(()));
    assert_eq!(sim.reg(E1000_EXTCNF_CTRL), 0x0001_0008);
    assert_eq!(sim.log.last(), Some(&Action::AssertCtxLockHeld));
}

#[test]
fn swflag_that_software_holds() {
    let mut sim = Sim::new();
    sim.regs.insert(E1000_EXTCNF_CTRL, 0x20);
    let (_, res) = drive(hw(MacType::Mac_pch_lpt), &mut sim, |a| acquire_swflag_ich8lan(a));
    assert_eq!(res, Err(Error::SwLocked));
    assert_eq!(sim.count(&Action::ReadRegister(E1000_EXTCNF_CTRL)), 100);
    assert_eq!(sim.count(&Action::MsecDelay(1)), 100);
    assert!(!sim.log.iter().any(|a| matches!(a, Action::WriteRegister(_, _))));
}

#[test]
fn swflag_that_comes_free() {
    let mut sim = Sim::new();
    sim.queued.insert(E1000_EXTCNF_CTRL, vec![0x20, 0x20, 0x0]);
    let (_, res) = drive(hw(MacType::Mac_pch_lpt), &mut sim, |a| acquire_swflag_ich8lan(a));
    assert_eq!(res, Ok(()));
    assert_eq!(sim.count(&Action::MsecDelay(1)), 2);
}

#[test]
fn swflag_that_firmware_keeps() {
    let mut sim = Sim::new();
    // The write never shows.
    sim.queued.insert(E1000_EXTCNF_CTRL, vec![0x4; 1001]);
    let (_, res) = drive(hw(MacType::Mac_pch_lpt), &mut sim, |a| acquire_swflag_ich8lan(a));
    assert_eq!(res, Err(Error::SemaphoreBusy));
    assert_eq!(sim.count(&Action::MsecDelay(1)), 1000);
    assert_eq!(sim.log.last(), Some(&Action::WriteRegister(E1000_EXTCNF_CTRL, 0x4)));
}

#[test]
fn swflag_released_already() {
    let mut sim = Sim::new();
    let (_, res) = drive(hw(MacType::Mac_pch_lpt), &mut sim, |a| release_swflag_ich8lan(a));
    assert_eq!(res, Ok(()));
    assert_eq!(
        sim.log,
        vec![Action::ReadRegister(E1000_EXTCNF_CTRL), Action::AssertCtxLockHeld]
    );
}

#[test]
fn reset_block_is_polled() {
    let mut sim = Sim::new();
    let (_, res) = drive(hw(MacType::Mac_pch_lpt), &mut sim, |a| check_reset_block_ich8lan(a));
    assert_eq!(res, Ok(true));
    assert_eq!(sim.count(&Action::ReadRegister(E1000_FWSM)), 31);
    assert_eq!(sim.count(&Action::MsecDelay(10)), 31);
    let mut sim = Sim::new();
    sim.queued.insert(E1000_FWSM, vec![0, 0]);
    sim.regs.insert(E1000_FWSM, 0x40);
    let (_, res) = drive(hw(MacType::Mac_pch_lpt), &mut sim, |a| check_reset_block_ich8lan(a));
    assert_eq!(res, Ok(false));
    assert_eq!(sim.count(&Action::MsecDelay(10)), 2);
}

#[test]
fn lan_init_done_is_awaited_and_cleared() {
    let mut sim = Sim::new();
    sim.queued.insert(E1000_STATUS, vec![0, 0, 0]);
    sim.regs.insert(E1000_STATUS, 0x203);
    drive(hw(MacType::Mac_pch_lpt), &mut sim, |a| lan_init_done_ich8lan(a));
    assert_eq!(sim.reg(E1000_STATUS), 0x3);
    assert_eq!(sim.count(&Action::UsecDelay(100)), 4);
    let mut sim = Sim::new();
    drive(hw(MacType::Mac_pch_lpt), &mut sim, |a| lan_init_done_ich8lan(a));
    assert_eq!(sim.count(&Action::UsecDelay(100)), 1501);
}

#[test]
fn phy_configuration_is_gated() {
    let mut sim = Sim::new();
    drive(hw(MacType::Mac_pch2lan), &mut sim, |a| gate_hw_phy_config_ich8lan(a, true));
    assert_eq!(sim.reg(E1000_EXTCNF_CTRL), 0x80);
    drive(hw(MacType::Mac_pch2lan), &mut sim, |a| gate_hw_phy_config_ich8lan(a, false));
    assert_eq!(sim.reg(E1000_EXTCNF_CTRL), 0);
    let mut sim = Sim::new();
    drive(hw(MacType::Mac_pchlan), &mut sim, |a| gate_hw_phy_config_ich8lan(a, true));
    assert!(sim.log.is_empty());
}

#[test]
fn emi_registers() {
    let mut sim = Sim::new();
    sim.phy.insert(0x11, 0xABCD);
    let (_, (res, data)) = drive(hw(MacType::Mac_pch_lpt), &mut sim, |a| {
        let mut data: u16 = 5;
        (read_emi_reg_locked(a, 0x8002, &mut data), data)
    });
    assert_eq!((res, data), (Ok(()), 0xABCD));
    assert_eq!(
        sim.calls(),
        vec![Call::PhyWriteRegLocked(0x10, 0x8002), Call::PhyReadRegLocked(0x11, 5)]
    );
    let (_, res) =
        drive(hw(MacType::Mac_pch_lpt), &mut sim, |a| write_emi_reg_locked(a, 0x4805, 0x1387));
    assert_eq!(res, Ok(()));
    assert_eq!((sim.phy_reg(0x10), sim.phy_reg(0x11)), (0x4805, 0x1387));
    sim.failing = vec![(Call::PhyWriteRegLocked(0x10, 7), 1)];
    sim.log.clear();
    let (_, res) = drive(hw(MacType::Mac_pch_lpt), &mut sim, |a| {
        access_emi_reg_locked(a, 7, &mut 0, true)
    });
    assert_eq!(res, Err(Error::Reported(1)));
    assert_eq!(sim.calls().len(), 1);
}

#[test]
fn lanphypc_is_toggled() {
    let mut sim = Sim::new();
    sim.regs.insert(E1000_FEXTNVM3, 0x0F00_0001);
    sim.regs.insert(E1000_CTRL, 0x0002_0040);
    sim.queued.insert(E1000_CTRL_EXT, vec![0, 0, 4]);
    drive(hw(MacType::Mac_pch_lpt), &mut sim, |a| toggle_lanphypc_pch_lpt(a));
    assert_eq!(sim.reg(E1000_FEXTNVM3), 0x0B00_0001);
    assert_eq!(sim.reg(E1000_CTRL), 0x40);
    assert_eq!(sim.count(&Action::WriteRegister(E1000_CTRL, 0x0001_0040)), 1);
    assert_eq!(sim.count(&Action::MsecDelay(5)), 3);
    assert_eq!(sim.log.last(), Some(&Action::MsecDelay(30)));

    let mut sim = Sim::new();
    drive(hw(MacType::Mac_pch_lpt), &mut sim, |a| toggle_lanphypc_pch_lpt(a));
    assert_eq!(sim.count(&Action::MsecDelay(5)), 21);

    let mut sim = Sim::new();
    drive(hw(MacType::Mac_pch2lan), &mut sim, |a| toggle_lanphypc_pch_lpt(a));
    assert_eq!(sim.log.last(), Some(&Action::MsecDelay(50)));
}

#[test]
fn phy_identifier_is_learned() {
    let mut sim = Sim::new();
    sim.phy.insert(2, 0x0154);
    sim.phy.insert(3, 0x00A5);
    sim.phy.insert(0x6037, 0x0101);
    sim.regs.insert(E1000_CTRL_EXT, 0x800);
    let (state, res) =
        drive(hw(MacType::Mac_pch_lpt), &mut sim, |a| phy_is_accessible_pchlan(a));
    assert_eq!(res, Ok(true));
    assert_eq!(state.phy.id, 0x0154_00A0);
    assert_eq!(state.phy.revision, 5);
    // Without firmware SMBus mode is left.
    assert_eq!(sim.phy_reg(0x6037), 0x0100);
    assert_eq!(sim.reg(E1000_CTRL_EXT), 0);
}

#[test]
fn phy_identifier_is_tried_twice() {
    let mut sim = Sim::new();
    sim.phy.insert(2, 0xFFFF);
    sim.regs.insert(E1000_FWSM, 0x8000);
    let (state, res) =
        drive(hw(MacType::Mac_pch_lpt), &mut sim, |a| phy_is_accessible_pchlan(a));
    assert_eq!(res, Ok(false));
    assert_eq!(state.phy.id, 0);
    assert_eq!(
        sim.calls(),
        vec![Call::PhyReadRegLocked(2, 0), Call::PhyReadRegLocked(2, 0xFFFF)]
    );
    // Registers that cannot be read.
    let mut sim = Sim::new();
    sim.failing = vec![(Call::PhyReadRegLocked(2, 0), 1)];
    let (state, res) =
        drive(hw(MacType::Mac_pch_lpt), &mut sim, |a| phy_is_accessible_pchlan(a));
    assert_eq!(res, Ok(false));
    assert_eq!(state.phy.id, 0);
    assert_eq!(sim.log.len(), 2);
}

#[test]
fn another_phy_is_not_taken_for_the_known_one() {
    let mut state = hw(MacType::Mac_pch_lpt);
    state.phy.id = 0x0154_00A0;
    let mut sim = Sim::new();
    sim.phy.insert(2, 0x0154);
    sim.phy.insert(3, 0x00B1);
    let (after, res) = drive(state, &mut sim, |a| phy_is_accessible_pchlan(a));
    assert_eq!(res, Ok(false));
    assert_eq!(after, state);
}

#[test]
fn phy_identifier_of_early_families_is_read_slowly() {
    let mut sim = Sim::new();
    sim.failing = vec![(Call::PhyReadRegLocked(2, 0), 1)];
    let (state, res) =
        drive(hw(MacType::Mac_pch2lan), &mut sim, |a| phy_is_accessible_pchlan(a));
    assert_eq!(res, Ok(true));
    assert_eq!(state.phy.id, 0x0154_00A0);
    assert_eq!(
        sim.calls()[2..],
        [
            Call::PhyRelease,
            Call::Incomplete(Feature::SetMdioSlowModeHv),
            Call::GetPhyId,
            Call::PhyAcquire
        ]
    );
    sim.failing.push((Call::GetPhyId, 2));
    let (_, res) = drive(hw(MacType::Mac_pch2lan), &mut sim, |a| phy_is_accessible_pchlan(a));
    assert_eq!(res, Ok(false));
    sim.failing.push((Call::PhyAcquire, 3));
    let (_, res) = drive(hw(MacType::Mac_pch2lan), &mut sim, |a| phy_is_accessible_pchlan(a));
    assert_eq!(res, Err(Error::Reported(3)));
}

#[test]
fn known_phy_is_compared() {
    let mut state = hw(MacType::Mac_pch2lan);
    state.phy.id = 0x0154_00A0;
    let mut sim = Sim::new();
    sim.phy.insert(2, 0x0154);
    sim.phy.insert(3, 0x00A1);
    let (_, res) = drive(state, &mut sim, |a| phy_is_accessible_pchlan(a));
    assert_eq!(res, Ok(true));
    assert_eq!(sim.calls().len(), 2);
    sim.phy.insert(3, 0x00B1);
    sim.log.clear();
    let (_, res) = drive(state, &mut sim, |a| phy_is_accessible_pchlan(a));
    assert_eq!(res, Ok(true));
    assert!(sim.calls().contains(&Call::GetPhyId));
}

#[test]
fn ulp_is_left_by_firmware() {
    let mut sim = Sim::new();
    sim.queued.insert(E1000_FWSM, vec![0x8000, 0x8400, 0x8400]);
    sim.regs.insert(E1000_FWSM, 0x8000);
    sim.regs.insert(E1000_H2ME, 0x800);
    let (state, res) =
        drive(hw(MacType::Mac_pch_lpt), &mut sim, |a| disable_ulp_lpt_lp(a, true));
    assert_eq!(res, Ok(()));
    assert_eq!(state.dev_spec.ulp_state, UlpState::Off);
    assert_eq!(sim.reg(E1000_H2ME), 0);
    assert_eq!(sim.count(&Action::WriteRegister(E1000_H2ME, 0x1000)), 1);
    assert_eq!(sim.count(&Action::MsecDelay(10)), 2);
    // A second time there is nothing to do.
    sim.log.clear();
    let (_, res) = drive(state, &mut sim, |a| disable_ulp_lpt_lp(a, false));
    assert_eq!(res, Ok(()));
    assert!(sim.log.is_empty());
}

#[test]
fn ulp_that_firmware_does_not_leave() {
    let mut sim = Sim::new();
    sim.regs.insert(E1000_FWSM, 0x8400);
    let (state, res) =
        drive(hw(MacType::Mac_pch_lpt), &mut sim, |a| disable_ulp_lpt_lp(a, false));
    assert_eq!(res, Err(Error::UlpConfigure));
    assert_eq!(sim.count(&Action::MsecDelay(10)), 30);
    assert_eq!(state.dev_spec.ulp_state, UlpState::Unknown);
}

#[test]
fn ulp_is_left_by_software() {
    let mut sim = Sim::new();
    sim.phy.insert(0x6037, 0x0003);
    sim.phy.insert(0x6051, 0x0001);
    sim.phy.insert(0x6170, 0xFFFE);
    sim.regs.insert(E1000_FEXTNVM7, 0x60);
    let (state, res) =
        drive(hw(MacType::Mac_pch_lpt), &mut sim, |a| disable_ulp_lpt_lp(a, false));
    assert_eq!(res, Ok(()));
    assert_eq!(state.dev_spec.ulp_state, UlpState::Off);
    assert_eq!(sim.phy_reg(0x6037), 0x0002);
    assert_eq!(sim.phy_reg(0x6051), 0x4001);
    assert_eq!(sim.phy_reg(0x6170), 0xE28B);
    assert_eq!(sim.reg(E1000_FEXTNVM7), 0x40);
    assert_eq!(sim.calls().last(), Some(&Call::PhyRelease));
}

#[test]
fn ulp_is_left_by_force() {
    let mut sim = Sim::new();
    sim.regs.insert(E1000_CTRL_EXT, 4);
    let (state, res) =
        drive(hw(MacType::Mac_pch_lpt), &mut sim, |a| disable_ulp_lpt_lp(a, true));
    assert_eq!(res, Ok(()));
    assert_eq!(state.dev_spec.ulp_state, UlpState::Off);
    assert_eq!(sim.calls().last(), Some(&Call::PhyReset));
    assert_eq!(sim.log.last(), Some(&Action::MsecDelay(50)));
}

#[test]
fn ulp_with_a_phy_that_cannot_be_read() {
    let mut sim = Sim::new();
    sim.failing = vec![(Call::ReadPhyRegHvLocked(0x6037, 0), 6)];
    let (state, res) =
        drive(hw(MacType::Mac_pch_lpt), &mut sim, |a| disable_ulp_lpt_lp(a, false));
    assert_eq!(res, Ok(()));
    assert_eq!(state.dev_spec.ulp_state, UlpState::Unknown);
    assert_eq!(
        sim.calls(),
        vec![
            Call::PhyAcquire,
            Call::ReadPhyRegHvLocked(0x6037, 0),
            Call::ReadPhyRegHvLocked(0x6037, 0),
            Call::PhyRelease
        ]
    );
    assert_eq!(sim.reg(E1000_CTRL_EXT), 0x800);
}

#[test]
fn devices_without_ulp() {
    for device_id in [0x153A, 0x153B, 0x15A0, 0x15A1] {
        let mut a = Adapter::new(Hw::new(MacType::Mac_pch_lpt, device_id), vec![]);
        assert_eq!(disable_ulp_lpt_lp(&mut a, true), Ok(()));
        assert!(a.io.trace.is_empty());
    }
    let mut a = Adapter::new(hw(MacType::Mac_pch2lan), vec![]);
    assert_eq!(disable_ulp_lpt_lp(&mut a, true), Ok(()));
    assert!(a.io.trace.is_empty());
}

#[test]
fn phy_workarounds_of_an_accessible_phy() {
    let mut sim = Sim::new();
    sim.phy.insert(2, 0x0154);
    sim.phy.insert(3, 0x00A0);
    sim.regs.insert(E1000_FWSM, 0x8000);
    let (state, res) =
        drive(hw(MacType::Mac_pch_spt), &mut sim, |a| init_phy_workarounds_pchlan(a));
    assert_eq!(res, Ok(()));
    assert_eq!(state.phy.id, 0x0154_00A0);
    assert_eq!(
        sim.calls(),
        vec![
            Call::PhyAcquire,
            Call::PhyReadRegLocked(2, 0),
            Call::PhyReadRegLocked(3, 0x0154),
            Call::PhyRelease,
            Call::CheckResetBlock,
            Call::PhyHwResetGeneric,
            Call::CheckResetBlock,
        ]
    );
    // The configuration by hardware stays gated on this family.
    assert_eq!(sim.reg(E1000_EXTCNF_CTRL), 0x80);
}

#[test]
fn phy_workarounds_with_blocked_reset() {
    let mut sim = Sim::new();
    sim.phy.insert(2, 0x0154);
    sim.regs.insert(E1000_FWSM, 0x8000);
    sim.reset_blocked = true;
    let (_, res) = drive(hw(MacType::Mac_pch_spt), &mut sim, |a| init_phy_workarounds_pchlan(a));
    assert_eq!(res, Err(Error::ResetBlocked));
}

#[test]
fn phy_workarounds_of_an_unreachable_phy() {
    let mut sim = Sim::new();
    sim.phy.insert(2, 0xFFFF);
    sim.regs.insert(E1000_FWSM, 0x8000);
    let (state, res) =
        drive(hw(MacType::Mac_pch_spt), &mut sim, |a| init_phy_workarounds_pchlan(a));
    assert_eq!(res, Err(Error::PhyError));
    assert_eq!(state.phy.id, 0);
    // SMBus mode is forced, then the PHY is power cycled, then SMBus mode is
    // left; each time the PHY is looked for.
    let smbus = Action::SetRegisterBit(E1000_CTRL_EXT, 0x800);
    let cycled = Action::WriteRegister(E1000_CTRL, 0x0001_0000);
    let unforced = Action::ClearRegisterBit(E1000_CTRL_EXT, 0x800);
    let at = |a: &Action| sim.log.iter().position(|x| x == a).unwrap();
    assert!(at(&smbus) < at(&cycled) && at(&cycled) < at(&unforced));
    let looks = sim.calls().iter().filter(|c| matches!(c, Call::PhyReadRegLocked(2, _))).count();
    assert_eq!(looks, 8);
    assert_eq!(sim.calls().last(), Some(&Call::PhyRelease));
    // The firmware can forbid the power cycle.
    sim.reset_blocked = true;
    sim.log.clear();
    let (_, res) = drive(hw(MacType::Mac_pch_spt), &mut sim, |a| init_phy_workarounds_pchlan(a));
    assert_eq!(res, Err(Error::PhyError));
    assert_eq!(sim.count(&cycled), 0);
    // An error in asking it leaves the semaphore held.
    sim.log.clear();
    sim.failing = vec![(Call::CheckResetBlock, 6)];
    let (_, res) = drive(hw(MacType::Mac_pch_spt), &mut sim, |a| init_phy_workarounds_pchlan(a));
    assert_eq!(res, Err(Error::Reported(6)));
    assert_eq!(sim.calls().last(), Some(&Call::CheckResetBlock));
    assert!(!sim.calls().contains(&Call::PhyRelease));
}

#[test]
fn phy_workarounds_of_an_unreachable_82579() {
    let mut sim = Sim::new();
    sim.failing = vec![
        (Call::PhyReadRegLocked(2, 0), 1),
        (Call::Incomplete(Feature::SetMdioSlowModeHv), 2),
    ];
    sim.reset_blocked = true;
    let (_, res) = drive(hw(MacType::Mac_pch2lan), &mut sim, |a| init_phy_workarounds_pchlan(a));
    assert_eq!(res, Err(Error::PhyError));
    // Without firmware hardware may configure the PHY again.
    assert_eq!(sim.reg(E1000_EXTCNF_CTRL), 0);
    // If resets are not blocked the PHY is power cycled and then reset.
    sim.reset_blocked = false;
    sim.log.clear();
    let (_, res) = drive(hw(MacType::Mac_pch2lan), &mut sim, |a| init_phy_workarounds_pchlan(a));
    assert_eq!(res, Ok(()));
    assert_eq!(sim.count(&Action::WriteRegister(E1000_CTRL, 0x0001_0000)), 1);
    assert!(sim.calls().contains(&Call::PhyHwResetGeneric));
}

#[test]
fn phy_workarounds_with_failing_calls() {
    for (call, number) in [
        (Call::PhyAcquire, 1),
        (Call::PhyRelease, 2),
        (Call::CheckResetBlock, 3),
        (Call::PhyHwResetGeneric, 4),
    ] {
        let mut sim = Sim::new();
        sim.phy.insert(2, 0x0154);
        sim.regs.insert(E1000_FWSM, 0x8000);
        sim.failing = vec![(call, number)];
        let (_, res) =
            drive(hw(MacType::Mac_pch_spt), &mut sim, |a| init_phy_workarounds_pchlan(a));
        assert_eq!(res, Err(Error::Reported(number)));
    }
}

#[test]
fn phy_parameters_by_family() {
    let mut sim = Sim::new();
    sim.phy.insert(2, 0x0154);
    sim.phy.insert(3, 0x00A0);
    sim.regs.insert(E1000_FWSM, 0x8000);
    let (state, res) =
        drive(hw(MacType::Mac_pch_spt), &mut sim, |a| init_phy_params_pchlan(a));
    assert_eq!(res, Ok(()));
    assert_eq!(state.phy.phy_type, PhyType::Type_i217);
    assert_eq!(state.phy.id, 0x0154_00A0);
    assert_eq!(state.phy.addr, 1);
    assert_eq!(state.phy.reset_delay_us, 100);
    assert_eq!(state.phy.autoneg_mask, 0x2F);
    assert_eq!(state.phy.ops.acquire, Some(Func::AcquireSwflagIch8lan));
    assert_eq!(state.phy.ops.get_info, Some(Func::GetPhyInfo82577));
    assert_eq!(state.phy.ops.commit, Some(Func::PhySwResetGeneric));

    sim.phy_type = PhyType::Type_82578;
    let (state, res) =
        drive(hw(MacType::Mac_pch_spt), &mut sim, |a| init_phy_params_pchlan(a));
    assert_eq!(res, Ok(()));
    assert_eq!(state.phy.ops.get_info, Some(Func::GetPhyInfoM88));
    assert_eq!(state.phy.ops.commit, None);

    sim.phy_type = PhyType::Type_igp_3;
    let (_, res) = drive(hw(MacType::Mac_pch_spt), &mut sim, |a| init_phy_params_pchlan(a));
    assert_eq!(res, Err(Error::UnknownPhyType));
}

#[test]
fn smbus_address_is_copied() {
    let mut sim = Sim::new();
    sim.regs.insert(E1000_STRAP, 0x00AA_3000);
    sim.phy.insert(0x601A, 0xFFFF);
    let mut state = hw(MacType::Mac_pch_lpt);
    let (_, res) = drive(state, &mut sim, |a| write_smbus_addr(a));
    assert_eq!(res, Ok(()));
    assert_eq!(sim.phy_reg(0x601A), 0xFFD5);
    // On an i217 frequency 3 is written as 2, its high bit in bit 12.
    state.phy.phy_type = PhyType::Type_i217;
    let (_, res) = drive(state, &mut sim, |a| write_smbus_addr(a));
    assert_eq!(res, Ok(()));
    assert_eq!(sim.phy_reg(0x601A), 0xFED5);
    sim.regs.insert(E1000_STRAP, 0x00AA_2000);
    drive(state, &mut sim, |a| write_smbus_addr(a)).1.unwrap();
    assert_eq!(sim.phy_reg(0x601A), 0xEFD5);
    sim.failing = vec![(Call::ReadPhyRegHvLocked(0x601A, 0), 8)];
    let (_, res) = drive(state, &mut sim, |a| write_smbus_addr(a));
    assert_eq!(res, Err(Error::Reported(8)));
}

#[test]
fn extended_configuration_is_applied() {
    let mut sim = Sim::new();
    sim.regs.insert(E1000_FEXTNVM, 0x0800_0000);
    sim.regs.insert(E1000_EXTCNF_CTRL, 0x0020_0000);
    sim.regs.insert(E1000_EXTCNF_SIZE, 0x0003_0000);
    sim.regs.insert(E1000_LEDCTL, 0x0007_0605);
    for (word, value) in [(0x40, 0x6000), (0x41, 0x001F), (0x42, 0x1234), (0x43, 0x0011)] {
        sim.nvm.insert(word, value);
    }
    sim.nvm.insert(0x44, 0x5678);
    sim.nvm.insert(0x45, 0x0132);
    let (_, res) = drive(hw(MacType::Mac_pch_lpt), &mut sim, |a| sw_lcd_config_ich8lan(a));
    assert_eq!(res, Ok(()));
    assert_eq!(sim.phy_reg(0x601E), 0x0605);
    assert_eq!(sim.phy_reg(0x6011), 0x1234);
    assert_eq!(sim.phy_reg(0x6012), 0x5678);
    assert_eq!(sim.calls().first(), Some(&Call::PhyAcquire));
    assert_eq!(sim.calls().last(), Some(&Call::PhyRelease));
    sim.failing = vec![(Call::NvmReadWord(0x43, 0x001F), 5)];
    let (_, res) = drive(hw(MacType::Mac_pch_lpt), &mut sim, |a| sw_lcd_config_ich8lan(a));
    assert_eq!(res, Err(Error::Reported(5)));
    assert_eq!(sim.calls().last(), Some(&Call::PhyRelease));
}

#[test]
fn extended_configuration_left_to_hardware() {
    // Not configured by software.
    let mut sim = Sim::new();
    drive(hw(MacType::Mac_pch_lpt), &mut sim, |a| sw_lcd_config_ich8lan(a)).1.unwrap();
    assert_eq!(sim.calls(), vec![Call::PhyAcquire, Call::PhyRelease]);
    // No region.
    sim.regs.insert(E1000_FEXTNVM, 0x0800_0000);
    sim.log.clear();
    drive(hw(MacType::Mac_pch_lpt), &mut sim, |a| sw_lcd_config_ich8lan(a)).1.unwrap();
    assert_eq!(sim.calls(), vec![Call::PhyAcquire, Call::PhyRelease]);
    // A family for which it is not meant.
    sim.log.clear();
    drive(hw(MacType::Mac_ich9lan), &mut sim, |a| sw_lcd_config_ich8lan(a)).1.unwrap();
    drive(hw(MacType::Mac_ich8lan), &mut sim, |a| sw_lcd_config_ich8lan(a)).1.unwrap();
    assert!(sim.log.is_empty());
    // Hardware does it on PCH.
    sim.regs.insert(E1000_EXTCNF_CTRL, 1);
    sim.regs.insert(E1000_EXTCNF_SIZE, 0x0001_0000);
    drive(hw(MacType::Mac_pchlan), &mut sim, |a| sw_lcd_config_ich8lan(a)).1.unwrap();
    assert_eq!(sim.calls(), vec![Call::PhyAcquire, Call::PhyRelease]);
}

#[test]
fn oem_bits_follow_the_device_state() {
    let mut sim = Sim::new();
    sim.regs.insert(E1000_FEXTNVM, 0x0800_0000);
    sim.regs.insert(E1000_PHY_CTRL, 0x48);
    sim.phy.insert(0x6019, 0x0045);
    drive(hw(MacType::Mac_pch_lpt), &mut sim, |a| oem_bits_config_ich8lan(a, true)).1.unwrap();
    assert_eq!(sim.phy_reg(0x6019), 0x0441);
    sim.regs.insert(E1000_PHY_CTRL, 0x0C);
    sim.reset_blocked = true;
    sim.phy.insert(0x6019, 0x0001);
    drive(hw(MacType::Mac_pch_lpt), &mut sim, |a| oem_bits_config_ich8lan(a, true)).1.unwrap();
    assert_eq!(sim.phy_reg(0x6019), 0x0001);
    drive(hw(MacType::Mac_pch_lpt), &mut sim, |a| oem_bits_config_ich8lan(a, false)).1.unwrap();
    assert_eq!(sim.phy_reg(0x6019), 0x0045);
    sim.failing = vec![(Call::CheckResetBlock, 3)];
    let (_, res) =
        drive(hw(MacType::Mac_pch_lpt), &mut sim, |a| oem_bits_config_ich8lan(a, true));
    assert_eq!(res, Err(Error::Reported(3)));
    assert_eq!(sim.calls().last(), Some(&Call::PhyRelease));
    // On PCH with the bits left to hardware nothing is written.
    sim.log.clear();
    sim.regs.insert(E1000_EXTCNF_CTRL, 8);
    drive(hw(MacType::Mac_pchlan), &mut sim, |a| oem_bits_config_ich8lan(a, true)).1.unwrap();
    assert_eq!(sim.calls(), vec![Call::PhyAcquire, Call::PhyRelease]);
    let mut a = Adapter::new(hw(MacType::Mac_ich10lan), vec![]);
    assert_eq!(oem_bits_config_ich8lan(&mut a, true), Ok(()));
    assert!(a.io.trace.is_empty());
}

#[test]
fn workarounds_of_the_82579() {
    let mut sim = Sim::new();
    drive(hw(MacType::Mac_pch2lan), &mut sim, |a| lv_phy_workarounds_ich8lan(a)).1.unwrap();
    assert_eq!(
        sim.calls(),
        vec![
            Call::Incomplete(Feature::SetMdioSlowModeHv),
            Call::PhyAcquire,
            Call::PhyWriteRegLocked(0x10, 0x084F),
            Call::PhyWriteRegLocked(0x11, 0x0034),
            Call::PhyWriteRegLocked(0x10, 0x2411),
            Call::PhyWriteRegLocked(0x11, 0x0005),
            Call::PhyRelease,
        ]
    );
    sim.log.clear();
    sim.failing = vec![(Call::PhyWriteRegLocked(0x11, 0x0034), 1)];
    drive(hw(MacType::Mac_pch2lan), &mut sim, |a| lv_phy_workarounds_ich8lan(a)).1.unwrap();
    assert_eq!(sim.calls().len(), 5);
    sim.failing = vec![(Call::PhyWriteRegLocked(0x11, 0x0005), 2)];
    let (_, res) = drive(hw(MacType::Mac_pch2lan), &mut sim, |a| lv_phy_workarounds_ich8lan(a));
    assert_eq!(res, Err(Error::Reported(2)));
}

#[test]
fn steps_after_a_phy_reset() {
    let mut sim = Sim::new();
    sim.phy.insert(0x6031, 0x0FFF);
    drive(hw(MacType::Mac_pch_lpt), &mut sim, |a| post_phy_reset_ich8lan(a)).1.unwrap();
    assert_eq!(sim.phy_reg(0x6031), 0x0FEF);
    assert_eq!((sim.phy_reg(0x10), sim.phy_reg(0x11)), (0x4805, 0x1387));
    assert_eq!(sim.log[1], Action::MsecDelay(10));
    sim.log.clear();
    sim.reset_blocked = true;
    drive(hw(MacType::Mac_pch_lpt), &mut sim, |a| post_phy_reset_ich8lan(a)).1.unwrap();
    assert_eq!(sim.calls(), vec![Call::CheckResetBlock]);
    // An error of the check does not count as blocked.
    sim.log.clear();
    sim.failing = vec![(Call::CheckResetBlock, 1)];
    drive(hw(MacType::Mac_pch_lpt), &mut sim, |a| post_phy_reset_ich8lan(a)).1.unwrap();
    assert!(sim.calls().len() > 1);
}

#[test]
fn phy_reset_of_an_unmanaged_82579() {
    let mut sim = Sim::new();
    let (_, res) = drive(hw(MacType::Mac_pch2lan), &mut sim, |a| phy_hw_reset_ich8lan(a));
    assert_eq!(res, Ok(()));
    assert_eq!(sim.log[1], Action::SetRegisterBit(E1000_EXTCNF_CTRL, 0x80));
    assert_eq!(sim.count(&Action::ClearRegisterBit(E1000_EXTCNF_CTRL, 0x80)), 1);
    sim.failing = vec![(Call::PhyHwResetGeneric, 7)];
    let (_, res) = drive(hw(MacType::Mac_pch2lan), &mut sim, |a| phy_hw_reset_ich8lan(a));
    assert_eq!(res, Err(Error::Reported(7)));
}

#[test]
fn configuration_done() {
    let mut sim = Sim::new();
    sim.regs.insert(E1000_STATUS, 0x601);
    sim.failing = vec![(Call::GetCfgDoneGeneric, 1)];
    sim.flash.set_word(0x13, 0x8000);
    let (_, res) = drive(hw(MacType::Mac_pch_lpt), &mut sim, |a| get_cfg_done_ich8lan(a));
    assert_eq!(res, Ok(()));
    assert_eq!(sim.reg(E1000_STATUS), 0x001);
    sim.flash.set_word(0x13, 0);
    let (_, res) = drive(hw(MacType::Mac_pch_lpt), &mut sim, |a| get_cfg_done_ich8lan(a));
    assert_eq!(res, Err(Error::NoValidNvmBank));
}

#[test]
fn configuration_done_before_ich10() {
    let mut sim = Sim::new();
    sim.failing = vec![(Call::GetAutoRdDoneGeneric, 1)];
    let (_, res) = drive(hw(MacType::Mac_ich9lan), &mut sim, |a| get_cfg_done_ich8lan(a));
    assert_eq!(res, Ok(()));
    assert_eq!(sim.calls(), vec![Call::GetCfgDoneGeneric, Call::GetAutoRdDoneGeneric]);
    sim.failing = vec![(Call::Incomplete(Feature::PhyInitScriptIgp3), 9)];
    let mut state = hw(MacType::Mac_ich9lan);
    let (_, res) = drive(state, &mut sim, |a| get_cfg_done_ich8lan(a));
    assert_eq!(res, Ok(()));
    state.phy.phy_type = PhyType::Type_igp_3;
    let (_, res) = drive(state, &mut sim, |a| get_cfg_done_ich8lan(a));
    assert_eq!(res, Err(Error::Reported(9)));
    sim.regs.insert(E1000_EECD, 0x100);
    let (_, res) = drive(state, &mut sim, |a| get_cfg_done_ich8lan(a));
    assert_eq!(res, Ok(()));
}

#[test]
fn jumbo_workaround_is_disabled() {
    let mut sim = Sim::new();
    sim.phy.insert(0x6034, 0x4001);
    sim.phy.insert(0x6037, 0x0FFF);
    sim.phy.insert(0x6030, 0x0000);
    sim.phy.insert(0x6114, 0xFFFF);
    sim.phy.insert(0x6051, 0x0401);
    sim.kmrn.insert(0x1, 0x0003);
    sim.kmrn.insert(0x10, 0x0F0F);
    sim.regs.insert(E1000_FFLT_DBG, 0x0003_C001);
    sim.regs.insert(E1000_RCTL, 0x0400_0002);
    let (_, res) = drive(hw(MacType::Mac_pch_lpt), &mut sim, |a| lv_jumbo_workaround(a, false));
    assert_eq!(res, Ok(()));
    assert_eq!(sim.reg(E1000_FFLT_DBG), 1);
    assert_eq!(sim.reg(E1000_RCTL), 2);
    assert_eq!((sim.kmrn[&0x1], sim.kmrn[&0x10]), (0x0002, 0x0B0F));
    assert_eq!(sim.phy_reg(0x6037), 0x001F);
    assert_eq!(sim.phy_reg(0x6030), 0x2000);
    assert_eq!(sim.phy_reg(0x6114), 0xF023);
    assert_eq!(sim.phy_reg(0x6117), 0x7E00);
    assert_eq!(sim.phy_reg(0x6051), 0x0001);
    assert_eq!(sim.phy_reg(0x6034), 0x0001);
}

#[test]
fn jumbo_workaround_is_enabled() {
    let mut sim = Sim::new();
    sim.phy.insert(0x6114, 0xFFFF);
    sim.phy.insert(0x6030, 0x2001);
    sim.regs.insert(E1000_FFLT_DBG, 0x4001);
    sim.failing = vec![(Call::Incomplete(Feature::LvJumboWorkaroundEnable), 1)];
    let (_, res) = drive(hw(MacType::Mac_pch2lan), &mut sim, |a| lv_jumbo_workaround(a, true));
    assert_eq!(res, Err(Error::Reported(1)));
    assert_eq!(sim.reg(E1000_FFLT_DBG), 0x0003_8001);
    assert_eq!(sim.reg(E1000_RCTL), 0x0400_0000);
    assert_eq!((sim.kmrn[&0x1], sim.kmrn[&0x10]), (0x0001, 0x0B00));
    assert_eq!(sim.phy_reg(0x6037), 0x06E0);
    assert_eq!(sim.phy_reg(0x6030), 0x0001);
    assert_eq!(sim.phy_reg(0x6114), 0xF07F);
    assert_eq!(sim.phy_reg(0x6117), 0xF100);
    assert_eq!(sim.phy_reg(0x6051), 0x0400);
    // The receive path was disabled meanwhile, and is enabled again.
    assert_eq!(sim.phy_reg(0x6034), 0);
    assert!(sim.calls().contains(&Call::PhyWriteReg(0x6034, 0x4000)));
    assert_eq!(sim.calls().last(), Some(&Call::PhyWriteReg(0x6034, 0)));
    sim.failing = vec![(Call::PhyWriteReg(0x6034, 0), 2)];
    let (_, res) = drive(hw(MacType::Mac_pch2lan), &mut sim, |a| lv_jumbo_workaround(a, true));
    assert_eq!(res, Err(Error::Reported(2)));
    sim.failing = vec![];
    let (_, res) = drive(hw(MacType::Mac_pch2lan), &mut sim, |a| lv_jumbo_workaround(a, true));
    assert_eq!(res, Ok(()));
    let mut a = Adapter::new(hw(MacType::Mac_pchlan), vec![]);
    assert_eq!(lv_jumbo_workaround(&mut a, true), Ok(()));
    assert!(a.io.trace.is_empty());
}

#[test]
fn phy_functions_that_are_not_implemented() {
    let features = [
        Feature::EnableUlpLptLp,
        Feature::SetMdioSlowModeHv,
        Feature::HvPhyWorkaroundsIch8lan,
        Feature::SetLpluStatePchlan,
        Feature::SetD0LpluStateIch8lan,
        Feature::SetD3LpluStateIch8lan,
    ];
    for (i, feature) in features.iter().enumerate() {
        let mut sim = Sim::new();
        sim.failing = vec![(Call::Incomplete(*feature), 40)];
        let (_, res) = drive(hw(MacType::Mac_pch_spt), &mut sim, |a| match i {
            0 => enable_ulp_lpt_lp(a, true),
            1 => set_mdio_slow_mode_hv(a),
            2 => hv_phy_workarounds_ich8lan(a),
            3 => set_lplu_state_pchlan(a, true),
            4 => set_d0_lplu_state_ich8lan(a, false),
            _ => set_d3_lplu_state_ich8lan(a, false),
        });
        assert_eq!(res, Err(Error::Reported(40)));
        assert_eq!(sim.calls(), vec![Call::Incomplete(*feature)]);
    }
}
