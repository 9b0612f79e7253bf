//! The link and what depends on its speed, against a simulated device.

#![allow(dead_code)]

use std::collections::BTreeMap;

use e1000_ich8lan::consts::{
    E1000_FEXTNVM4, E1000_FEXTNVM6, E1000_LTRV, E1000_PBA, E1000_PCIEANACFG, E1000_STATUS,
    E1000_SVCR, E1000_SVT, E1000_TIPG, HV_PM_CTRL, I217_INBAND_CTRL, I217_PLL_CLOCK_GATE_REG,
    I82579_LPI_CTRL, PHY_776_20,
};
use e1000_ich8lan::eee::set_eee_pchlan;
use e1000_ich8lan::error::Error;
use e1000_ich8lan::hw::{Func, Hw, MacType, PhyType};
use e1000_ich8lan::io::{Action, Adapter, Call, Feature, Reply, Return};
use e1000_ich8lan::k1::{
    configure_k1_ich8lan, k1_gig_workaround_hv, k1_workaround_lpt_lp, k1_workaround_lv,
};
use e1000_ich8lan::link::check_for_copper_link_ich8lan;
use e1000_ich8lan::link_info::{get_link_up_info_ich8lan, kmrn_lock_loss_workaround_ich8lan};
use e1000_ich8lan::ltr::{platform_pm_pch_lpt, set_obff_timer_pch_lpt};
use e1000_ich8lan::setup::setup_copper_link_ich8lan;

/// A device and the rest of the driver, as the functions under test see them.
struct Sim {
    regs: BTreeMap<u32, u32>,
    /// Values that a register gives before it settles at the one in `regs`.
    queued: BTreeMap<u32, Vec<u32>>,
    phy: BTreeMap<u32, u16>,
    kmrn: BTreeMap<u32, u16>,
    nvm: BTreeMap<u16, u16>,
    pci: BTreeMap<u32, u32>,
    flash: Flash,
    reset_blocked: bool,
    link: bool,
    speed: u16,
    duplex: u16,
    phy_type: PhyType,
    /// Calls that fail, with the number of the error.
    failing: Vec<(Call, u32)>,
    /// What was performed, in order.
    log: Vec<Action>,
}

/// The flash controller and its memory.
struct Flash {
    memory: Vec<u8>,
    status: u16,
    ctrl: u16,
    addr: u32,
    data: u32,
    gfpreg: u32,
    /// How many of the next cycles end with an error.
    errors: u32,
    /// Whether cycles never end.
    dead: bool,
}

impl Flash {
    fn new() -> Flash {
        Flash {
            memory: vec![0xFF; 0x4000],
            status: 0x4000,
            ctrl: 0,
            addr: 0,
            data: 0,
            gfpreg: 0,
            errors: 0,
            dead: false,
        }
    }

    fn set_word(&mut self, word: usize, value: u16) {
        self.memory[word * 2] = value as u8;
        self.memory[word * 2 + 1] = (value >> 8) as u8;
    }

    fn word(&self, word: usize) -> u16 {
        self.memory[word * 2] as u16 | (self.memory[word * 2 + 1] as u16) << 8
    }

    fn write_status(&mut self, value: u16) {
        // The done and error bits are cleared by writing 1.
        self.status &= !(value & 0x7);
    }

    fn write_ctrl(&mut self, value: u16) {
        self.ctrl = value & !1;
        if value & 1 == 0 || self.dead {
            return;
        }
        if self.errors > 0 {
            self.errors -= 1;
            self.status |= 0x3;
            return;
        }
        let bytes = ((value >> 8) & 3) as usize + 1;
        let at = self.addr as usize;
        if (value >> 1) & 3 == 2 {
            for i in 0..bytes {
                self.memory[at + i] = (self.data >> (8 * i)) as u8;
            }
        } else {
            self.data = 0;
            for i in 0..bytes {
                self.data |= (self.memory[at + i] as u32) << (8 * i);
            }
        }
        self.status |= 1;
    }
}

impl Sim {
    fn new() -> Sim {
        Sim {
            regs: BTreeMap::new(),
            queued: BTreeMap::new(),
            phy: BTreeMap::new(),
            kmrn: BTreeMap::new(),
            nvm: BTreeMap::new(),
            pci: BTreeMap::new(),
            flash: Flash::new(),
            reset_blocked: false,
            link: false,
            speed: 0,
            duplex: 0,
            phy_type: PhyType::Type_i217,
            failing: vec![],
            log: vec![],
        }
    }

    fn reg(&self, reg: u32) -> u32 {
        *self.regs.get(&reg).unwrap_or(&0)
    }

    fn phy_reg(&self, reg: u32) -> u16 {
        *self.phy.get(&reg).unwrap_or(&0)
    }

    /// Performs an operation, and gives its answer if it asks for one.
    fn perform(&mut self, action: &Action) -> Option<Reply> {
        self.log.push(action.clone());
        match action {
            Action::ReadRegister(reg) => {
                if let Some(values) = self.queued.get_mut(reg) {
                    if !values.is_empty() {
                        return Some(Reply::Value(values.remove(0)));
                    }
                }
                Some(Reply::Value(self.reg(*reg)))
            }
            Action::WriteRegister(reg, value) => {
                self.regs.insert(*reg, *value);
                None
            }
            Action::SetRegisterBit(reg, mask) => {
                let value = self.reg(*reg) | mask;
                self.regs.insert(*reg, value);
                None
            }
            Action::ClearRegisterBit(reg, mask) => {
                let value = self.reg(*reg) & !mask;
                self.regs.insert(*reg, value);
                None
            }
            Action::ReadFlashRegister(reg) => Some(Reply::Value(match *reg {
                0x00 => self.flash.gfpreg,
                0x04 => self.flash.status as u32 | (self.flash.ctrl as u32) << 16,
                0x08 => self.flash.addr,
                _ => self.flash.data,
            })),
            Action::ReadFlashRegister16(reg) => Some(Reply::Value(match *reg {
                0x04 => self.flash.status as u32,
                _ => self.flash.ctrl as u32,
            })),
            Action::WriteFlashRegister(reg, value) => {
                match *reg {
                    0x04 => {
                        self.flash.write_status(*value as u16);
                        if *value >> 16 != 0 {
                            self.flash.write_ctrl((*value >> 16) as u16);
                        }
                    }
                    0x08 => self.flash.addr = *value,
                    _ => self.flash.data = *value,
                }
                None
            }
            Action::WriteFlashRegister16(reg, value) => {
                match *reg {
                    0x04 => self.flash.write_status(*value),
                    _ => self.flash.write_ctrl(*value),
                }
                None
            }
            Action::ReadPciConfig(offset, _) => {
                Some(Reply::Value(*self.pci.get(offset).unwrap_or(&0)))
            }
            Action::PhyTypeFromId(_) => Some(Reply::PhyType(self.phy_type)),
            Action::Call(call, hw) => Some(self.call(call, **hw)),
            _ => None,
        }
    }

    fn call(&mut self, call: &Call, hw: Hw) -> Reply {
        let mut ret = Return { result: Ok(()), value: 0, extra: 0, hw };
        for (failing, number) in &self.failing {
            if failing == call {
                ret.result = Err(Error::Reported(*number));
                return Reply::Returned(Box::new(ret));
            }
        }
        match *call {
            Call::PhyReadReg(reg, _)
            | Call::PhyReadRegLocked(reg, _)
            | Call::ReadPhyRegHvLocked(reg, _)
            | Call::OpReadReg(_, reg, _) => ret.value = self.phy_reg(reg) as u32,
            Call::PhyWriteReg(reg, v)
            | Call::PhyWriteRegLocked(reg, v)
            | Call::WritePhyRegHvLocked(reg, v)
            | Call::OpWriteReg(_, reg, v) => {
                self.phy.insert(reg, v);
            }
            Call::ReadKmrnReg(reg, _) | Call::ReadKmrnRegLocked(reg, _) => {
                ret.value = *self.kmrn.get(&reg).unwrap_or(&0) as u32
            }
            Call::WriteKmrnReg(reg, v) | Call::WriteKmrnRegLocked(reg, v) => {
                self.kmrn.insert(reg, v);
            }
            Call::NvmReadWord(word, _) => {
                ret.value = *self.nvm.get(&word).unwrap_or(&0xFFFF) as u32
            }
            Call::NvmWriteWord(word, v) => {
                self.nvm.insert(word, v);
            }
            Call::CheckResetBlock => ret.value = self.reset_blocked as u32,
            Call::HasLinkGeneric(_, _, _) => ret.value = self.link as u32,
            Call::GetSpeedAndDuplexCopperGeneric(_, _) => {
                ret.value = self.speed as u32;
                ret.extra = self.duplex as u32;
            }
            Call::EnablePhyWakeupRegAccessBm(_) => ret.value = 0x77,
            Call::GetPhyId => ret.hw.phy.id = 0x0154_00A0,
            _ => {}
        }
        Reply::Returned(Box::new(ret))
    }

    fn calls(&self) -> Vec<Call> {
        let mut calls = vec![];
        for action in &self.log {
            if let Action::Call(call, _) = action {
                calls.push(*call);
            }
        }
        calls
    }

    fn count(&self, action: &Action) -> usize {
        self.log.iter().filter(|a| *a == action).count()
    }
}

/// Runs a function to its end against the device: whenever it stalls, performs
/// what it has recorded since, and starts it again with one more answer.
fn drive<T>(hw: Hw, sim: &mut Sim, f: impl Fn(&mut Adapter) -> T) -> (Hw, T) {
    let mut replies: Vec<Reply> = vec![];
    let mut performed = 0;
    loop {
        let mut adapter = Adapter::new(hw, replies.clone());
        let out = f(&mut adapter);
        for action in &adapter.io.trace[performed..] {
            let answer = sim.perform(action);
            assert_eq!(answer.is_some(), action.needs_answer());
            if let Some(reply) = answer {
                replies.push(reply);
            }
        }
        performed = adapter.io.trace.len();
        if !adapter.is_stalled() {
            assert_eq!(adapter.io.used, replies.len());
            return (adapter.hw, out);
        }
    }
}

fn hw(mac_type: MacType) -> Hw {
    let mut hw = Hw::new(mac_type, 0x15B7);
    hw.mac.get_link_status = true;
    hw.mac.autoneg = true;
    hw.mac.max_frame_size = 1;
    hw.mac.ops.get_link_up_info = Some(Func::GetLinkUpInfoIch8lan);
    hw.mac.ops.config_collision_dist = Some(Func::Other(3));
    hw.phy.phy_type = PhyType::Type_i217;
    hw.phy.ops.read_reg = Some(Func::ReadPhyRegHv);
    hw.phy.ops.read_reg_locked = Some(Func::ReadPhyRegHvLocked);
    hw.phy.ops.write_reg = Some(Func::WritePhyRegHv);
    hw.phy.ops.write_reg_locked = Some(Func::WritePhyRegHvLocked);
    hw
}

/// A link at a speed, with a receive buffer of 24 KB and a platform that
/// supports latencies of up to 3 ms.
fn linked(speed: u16, duplex: u16) -> Sim {
    let mut sim = Sim::new();
    sim.link = true;
    sim.speed = speed;
    sim.duplex = duplex;
    sim.regs.insert(E1000_PBA, 24);
    sim.pci.insert(0xA8, 0x1003);
    sim.pci.insert(0xAA, 0x1002);
    sim
}

#[test]
fn link_without_indication_is_left() {
    let mut state = hw(MacType::Mac_pch_spt);
    state.mac.get_link_status = false;
    let mut a = Adapter::new(state, vec![]);
    assert_eq!(check_for_copper_link_ich8lan(&mut a), Ok(()));
    assert!(a.io.trace.is_empty() && !a.is_stalled());
}

#[test]
fn link_check_needs_its_functions() {
    for missing in 0..4 {
        let mut state = hw(MacType::Mac_pch_spt);
        match missing {
            0 => state.phy.ops.read_reg = None,
            1 => state.phy.ops.read_reg_locked = None,
            2 => state.phy.ops.write_reg = None,
            _ => state.phy.ops.write_reg_locked = None,
        }
        let mut a = Adapter::new(state, vec![]);
        assert_eq!(check_for_copper_link_ich8lan(&mut a), Err(Error::NoFunction));
    }
    let mut state = hw(MacType::Mac_pch_lpt);
    state.mac.ops.config_collision_dist = None;
    let mut sim = linked(1000, 2);
    let (after, res) = drive(state, &mut sim, |a| check_for_copper_link_ich8lan(a));
    assert_eq!(res, Err(Error::NoFunction));
    assert!(!after.mac.get_link_status);
    let mut state = hw(MacType::Mac_pch_lpt);
    state.mac.ops.get_link_up_info = None;
    let (after, res) = drive(state, &mut sim, |a| check_for_copper_link_ich8lan(a));
    assert_eq!(res, Err(Error::NoFunction));
    assert!(after.mac.get_link_status);
}

#[test]
fn link_that_is_down() {
    let mut sim = Sim::new();
    sim.regs.insert(E1000_FEXTNVM6, 0x8000_0001);
    let mut state = hw(MacType::Mac_pch_spt);
    state.dev_spec.eee_lp_ability = 6;
    let (after, res) = drive(state, &mut sim, |a| check_for_copper_link_ich8lan(a));
    assert_eq!(res, Ok(()));
    assert!(after.mac.get_link_status);
    assert_eq!(after.dev_spec.eee_lp_ability, 0);
    assert_eq!(sim.calls(), vec![Call::HasLinkGeneric(1, 0, false)]);
    assert_eq!(sim.reg(E1000_FEXTNVM4), 7);
    assert_eq!(sim.reg(E1000_LTRV), 0x4000_0000);
    assert_eq!(sim.reg(E1000_SVCR), 0x1001);
    assert_eq!(sim.reg(E1000_FEXTNVM6), 1);
}

#[test]
fn link_at_gigabit_on_sunrise_point() {
    let mut sim = linked(1000, 2);
    sim.regs.insert(E1000_TIPG, 0x0060_2006);
    sim.regs.insert(E1000_PCIEANACFG, 0x8000_0000);
    sim.regs.insert(E1000_SVT, 0xFFFF_FFFF);
    sim.phy.insert(I217_PLL_CLOCK_GATE_REG, 0xFFFF);
    sim.phy.insert(HV_PM_CTRL, 0x0001);
    sim.phy.insert(PHY_776_20, 0xF003);
    let (after, res) =
        drive(hw(MacType::Mac_pch_spt), &mut sim, |a| check_for_copper_link_ich8lan(a));
    assert_eq!(res, Ok(()));
    assert!(!after.mac.get_link_status);
    assert_eq!(sim.reg(E1000_TIPG), 0x0060_2008);
    assert_eq!(sim.phy_reg(I217_PLL_CLOCK_GATE_REG), 0xF8FA);
    assert_eq!(sim.phy_reg(HV_PM_CTRL), 0x0201);
    assert_eq!(sim.phy_reg(PHY_776_20), 0xF063);
    // (24576 - 16000) / 1000 = 8 ns.
    assert_eq!(sim.reg(E1000_LTRV), 0xC008_8008);
    assert_eq!(sim.reg(E1000_SVT), 0xFFFF_FFF8);
    assert_eq!(sim.reg(E1000_FEXTNVM6), 0x8000_0000);
    assert_eq!(sim.calls().last(), Some(&Call::ConfigFcAfterLinkUpGeneric));
    assert!(sim.calls().contains(&Call::Op(Func::Other(3))));
    assert!(sim.calls().contains(&Call::CheckDownshiftGeneric));
}

#[test]
fn link_at_slower_speeds() {
    for (speed, duplex, tipg) in [(10, 1, 0xFF), (100, 2, 0x0C), (100, 1, 0x08), (10, 2, 0x0C)] {
        let mut sim = linked(speed, duplex);
        let (_, res) =
            drive(hw(MacType::Mac_pch_cnp), &mut sim, |a| check_for_copper_link_ich8lan(a));
        assert_eq!(res, Ok(()));
        assert_eq!(sim.reg(E1000_TIPG), tipg);
        assert_eq!(sim.phy_reg(I217_PLL_CLOCK_GATE_REG), 0x3E8);
        assert_eq!(sim.phy_reg(PHY_776_20), 0xC023);
        // The receive latency is reduced at 10 Mb/s half duplex only.
        let latency = if (speed, duplex) == (10, 1) { 0 } else { 1 };
        assert!(sim.calls().contains(&Call::PhyWriteRegLocked(0x11, latency)));
        assert!(sim.calls().contains(&Call::PhyWriteRegLocked(0x10, 0xB20C)));
    }
    // Before Sunrise Point the gap is wider only at 10 Mb/s half duplex.
    let mut sim = linked(100, 2);
    drive(hw(MacType::Mac_pch_lpt), &mut sim, |a| check_for_copper_link_ich8lan(a)).1.unwrap();
    assert_eq!(sim.reg(E1000_TIPG), 0x08);
    assert_eq!(sim.phy_reg(PHY_776_20), 0);
}

#[test]
fn pointer_gap_that_is_wide_enough() {
    let mut sim = linked(1000, 2);
    sim.phy.insert(PHY_776_20, 0x0060);
    drive(hw(MacType::Mac_pch_spt), &mut sim, |a| check_for_copper_link_ich8lan(a)).1.unwrap();
    assert_eq!(sim.phy_reg(PHY_776_20), 0x0060);
    let write = Call::OpWriteReg(Func::WritePhyRegHvLocked, PHY_776_20, 0x0060);
    assert!(!sim.calls().contains(&write));
    sim.phy.insert(PHY_776_20, 0x005C);
    sim.log.clear();
    drive(hw(MacType::Mac_pch_spt), &mut sim, |a| check_for_copper_link_ich8lan(a)).1.unwrap();
    assert_eq!(sim.phy_reg(PHY_776_20), 0x0060);
    // A gap that was widened leaves the semaphore held.
    let times = |call: Call| sim.calls().iter().filter(|c| **c == call).count();
    assert_eq!(times(Call::PhyAcquire), times(Call::PhyRelease) + 1);
    sim.phy.insert(PHY_776_20, 0x005C);
    sim.failing = vec![(Call::OpWriteReg(Func::WritePhyRegHvLocked, PHY_776_20, 0x0060), 3)];
    let (_, res) =
        drive(hw(MacType::Mac_pch_spt), &mut sim, |a| check_for_copper_link_ich8lan(a));
    assert_eq!(res, Err(Error::Reported(3)));
    assert_eq!(sim.calls().last(), Some(&Call::PhyRelease));
    sim.failing = vec![(Call::OpReadReg(Func::ReadPhyRegHvLocked, PHY_776_20, 0), 4)];
    let (_, res) =
        drive(hw(MacType::Mac_pch_spt), &mut sim, |a| check_for_copper_link_ich8lan(a));
    assert_eq!(res, Err(Error::Reported(4)));
    assert_eq!(sim.calls().last(), Some(&Call::PhyRelease));
}

#[test]
fn link_without_negotiation() {
    let mut state = hw(MacType::Mac_pch_lpt);
    state.mac.autoneg = false;
    let (_, res) = drive(state, &mut linked(1000, 2), |a| check_for_copper_link_ich8lan(a));
    assert_eq!(res, Err(Error::AutonegNotSet));
}

#[test]
fn link_check_with_failing_calls() {
    for (call, number) in [
        (Call::HasLinkGeneric(1, 0, false), 1),
        (Call::PhyAcquire, 2),
        (Call::PhyRelease, 3),
        (Call::ConfigFcAfterLinkUpGeneric, 4),
        (Call::PhyReadRegLocked(I82579_LPI_CTRL, 0), 5),
    ] {
        let mut sim = linked(1000, 2);
        sim.failing = vec![(call, number)];
        let (_, res) =
            drive(hw(MacType::Mac_pch_lpt), &mut sim, |a| check_for_copper_link_ich8lan(a));
        assert_eq!(res, Err(Error::Reported(number)));
    }
}

#[test]
fn link_of_early_families() {
    for (mac_type, feature) in [
        (MacType::Mac_pchlan, Feature::CheckLinkPchlan),
        (MacType::Mac_pch2lan, Feature::CheckLinkPch2lan),
    ] {
        let mut sim = linked(100, 2);
        sim.failing = vec![(Call::Incomplete(feature), 50)];
        let (_, res) = drive(hw(mac_type), &mut sim, |a| check_for_copper_link_ich8lan(a));
        assert_eq!(res, Err(Error::Reported(50)));
    }
    // The 82579 has another register for the receive latency.
    let mut sim = linked(100, 2);
    drive(hw(MacType::Mac_pch2lan), &mut sim, |a| check_for_copper_link_ich8lan(a)).1.unwrap();
    assert!(sim.calls().contains(&Call::PhyWriteRegLocked(0x10, 0x3412)));
    // ICH devices are not adapted to the speed.
    let mut sim = linked(100, 2);
    let mut state = hw(MacType::Mac_ich9lan);
    state.phy.phy_type = PhyType::Type_igp_3;
    drive(state, &mut sim, |a| check_for_copper_link_ich8lan(a)).1.unwrap();
    assert_eq!(
        sim.calls(),
        vec![
            Call::HasLinkGeneric(1, 0, false),
            Call::CheckDownshiftGeneric,
            Call::Op(Func::Other(3)),
            Call::ConfigFcAfterLinkUpGeneric,
        ]
    );
}

#[test]
fn k1_is_worked_around_on_the_i218() {
    let mut sim = linked(1000, 2);
    sim.regs.insert(E1000_STATUS, 0x83);
    sim.kmrn.insert(7, 0x1002);
    let mut state = hw(MacType::Mac_pch_lpt);
    state.device_id = 0x1559;
    drive(state, &mut sim, |a| check_for_copper_link_ich8lan(a)).1.unwrap();
    assert_eq!(sim.reg(E1000_FEXTNVM6), 0x100);
    assert!(sim.calls().contains(&Call::WriteKmrnRegLocked(7, 0x1000)));
    assert_eq!(sim.kmrn[&7], 0x1002);
    // Another device of the same family.
    let mut sim = linked(1000, 2);
    sim.regs.insert(E1000_STATUS, 0x83);
    drive(hw(MacType::Mac_pch_lpt), &mut sim, |a| check_for_copper_link_ich8lan(a)).1.unwrap();
    assert_eq!(sim.reg(E1000_FEXTNVM6), 0);
}

#[test]
fn k1_at_gigabit() {
    let mut sim = Sim::new();
    sim.regs.insert(E1000_STATUS, 0x80);
    let (_, res) = drive(hw(MacType::Mac_pch_lpt), &mut sim, |a| k1_workaround_lpt_lp(a, true));
    assert_eq!(res, Ok(()));
    assert_eq!(sim.reg(E1000_FEXTNVM6), 0x100);
    for (call, number) in [
        (Call::ReadKmrnRegLocked(7, 0), 1),
        (Call::WriteKmrnRegLocked(7, 0), 2),
        (Call::PhyRelease, 3),
    ] {
        sim.failing = vec![(call, number)];
        let (_, res) =
            drive(hw(MacType::Mac_pch_lpt), &mut sim, |a| k1_workaround_lpt_lp(a, true));
        assert_eq!(res, Err(Error::Reported(number)));
        assert_eq!(sim.calls().last(), Some(&Call::PhyRelease));
    }
    sim.failing = vec![(Call::PhyAcquire, 4)];
    let (_, res) = drive(hw(MacType::Mac_pch_lpt), &mut sim, |a| k1_workaround_lpt_lp(a, true));
    assert_eq!(res, Err(Error::Reported(4)));
    assert_eq!(sim.calls().last(), Some(&Call::PhyAcquire));
}

#[test]
fn k1_below_gigabit() {
    // No link: the clock request is withdrawn.
    let mut sim = Sim::new();
    sim.regs.insert(E1000_FEXTNVM6, 0x301);
    drive(hw(MacType::Mac_pch_lpt), &mut sim, |a| k1_workaround_lpt_lp(a, false)).1.unwrap();
    assert_eq!(sim.reg(E1000_FEXTNVM6), 0x201);
    assert!(sim.calls().is_empty());
    // 100 Mb/s full duplex.
    sim.regs.insert(E1000_STATUS, 0x41);
    sim.regs.insert(E1000_FEXTNVM6, 0x301);
    drive(hw(MacType::Mac_pch_lpt), &mut sim, |a| k1_workaround_lpt_lp(a, true)).1.unwrap();
    assert_eq!(sim.reg(E1000_FEXTNVM6), 0x201);
    assert!(sim.calls().is_empty());
    // 100 Mb/s half duplex.
    sim.regs.insert(E1000_STATUS, 0x40);
    sim.phy.insert(I217_INBAND_CTRL, 0xFFFF);
    drive(hw(MacType::Mac_pch_lpt), &mut sim, |a| k1_workaround_lpt_lp(a, true)).1.unwrap();
    assert_eq!(sim.reg(E1000_FEXTNVM6), 0x001);
    assert_eq!(sim.phy_reg(I217_INBAND_CTRL), 0xC5FF);
    // 10 Mb/s.
    sim.regs.insert(E1000_STATUS, 0);
    drive(hw(MacType::Mac_pch_lpt), &mut sim, |a| k1_workaround_lpt_lp(a, true)).1.unwrap();
    assert_eq!(sim.reg(E1000_FEXTNVM6), 0x201);
    assert_eq!(sim.phy_reg(I217_INBAND_CTRL), 0xF2FF);
    // Later revisions of the PHY need none of this.
    let mut state = hw(MacType::Mac_pch_lpt);
    state.phy.revision = 6;
    sim.log.clear();
    drive(state, &mut sim, |a| k1_workaround_lpt_lp(a, true)).1.unwrap();
    assert!(sim.calls().is_empty());
    sim.failing = vec![(Call::PhyReadReg(I217_INBAND_CTRL, 0), 9)];
    let (_, res) = drive(hw(MacType::Mac_pch_lpt), &mut sim, |a| k1_workaround_lpt_lp(a, true));
    assert_eq!(res, Err(Error::Reported(9)));
}

#[test]
fn eee_in_both_speeds() {
    let mut sim = Sim::new();
    sim.phy.insert(I82579_LPI_CTRL, 0x0010);
    // Partner and advertisement are read through the same data register.
    sim.phy.insert(0x11, 0x0006);
    sim.phy.insert(5, 0x0100);
    let (state, res) = drive(hw(MacType::Mac_pch_lpt), &mut sim, |a| set_eee_pchlan(a));
    assert_eq!(res, Ok(()));
    assert_eq!(state.dev_spec.eee_lp_ability, 6);
    assert_eq!(sim.phy_reg(I82579_LPI_CTRL), 0x6010);
    let order = [
        Call::PhyWriteRegLocked(0x10, 0x8002),
        Call::PhyWriteRegLocked(0x10, 0x8001),
        Call::PhyWriteRegLocked(0x10, 0x9401),
    ];
    let emi: Vec<Call> = sim.calls().into_iter().filter(|c| order.contains(c)).collect();
    assert_eq!(emi, order);
    // What the partner announces is handed over to the last read.
    let handed: Vec<Call> = sim
        .calls()
        .into_iter()
        .filter(|c| matches!(c, Call::PhyReadRegLocked(0x11, _)))
        .collect();
    assert_eq!(
        handed,
        vec![
            Call::PhyReadRegLocked(0x11, 0),
            Call::PhyReadRegLocked(0x11, 0),
            Call::PhyReadRegLocked(0x11, 0x0100),
        ]
    );
    assert_eq!(sim.calls().last(), Some(&Call::PhyRelease));
}

#[test]
fn eee_without_full_duplex_at_100() {
    let mut sim = Sim::new();
    sim.phy.insert(0x11, 0x0006);
    let (state, res) = drive(hw(MacType::Mac_pch_lpt), &mut sim, |a| set_eee_pchlan(a));
    assert_eq!(res, Ok(()));
    assert_eq!(state.dev_spec.eee_lp_ability, 4);
    assert_eq!(sim.phy_reg(I82579_LPI_CTRL), 0x4000);
}

#[test]
fn eee_that_is_disabled() {
    let mut sim = Sim::new();
    sim.phy.insert(I82579_LPI_CTRL, 0x6001);
    sim.phy.insert(0x11, 0x0006);
    let mut state = hw(MacType::Mac_pch_lpt);
    state.dev_spec.eee_disable = true;
    let (after, res) = drive(state, &mut sim, |a| set_eee_pchlan(a));
    assert_eq!(res, Ok(()));
    assert_eq!(sim.phy_reg(I82579_LPI_CTRL), 0x0001);
    assert_eq!(after.dev_spec.eee_lp_ability, 0);
}

#[test]
fn eee_of_other_phys() {
    let mut state = hw(MacType::Mac_pch_lpt);
    state.phy.phy_type = PhyType::Type_82577;
    let mut a = Adapter::new(state, vec![]);
    assert_eq!(set_eee_pchlan(&mut a), Ok(()));
    assert!(a.io.trace.is_empty());
    state.phy.phy_type = PhyType::Type_82579;
    let mut sim = Sim::new();
    sim.failing = vec![(Call::Incomplete(Feature::SetEee82579), 8)];
    let (_, res) = drive(state, &mut sim, |a| set_eee_pchlan(a));
    assert_eq!(res, Err(Error::Reported(8)));
}

#[test]
fn eee_with_failing_calls() {
    for (call, number, released) in [
        (Call::PhyAcquire, 1, false),
        (Call::PhyReadRegLocked(I82579_LPI_CTRL, 0), 2, false),
        (Call::PhyWriteRegLocked(0x10, 0x8002), 3, true),
        (Call::PhyWriteRegLocked(0x10, 0x8001), 4, true),
        (Call::PhyWriteRegLocked(0x10, 0x9401), 5, true),
        (Call::PhyReadRegLocked(5, 0), 6, false),
        (Call::PhyWriteRegLocked(I82579_LPI_CTRL, 0x4000), 7, true),
    ] {
        let mut sim = Sim::new();
        sim.phy.insert(0x11, 0x0006);
        sim.failing = vec![(call, number)];
        let (_, res) = drive(hw(MacType::Mac_pch_lpt), &mut sim, |a| set_eee_pchlan(a));
        assert_eq!(res, Err(Error::Reported(number)));
        assert_eq!(sim.calls().last() == Some(&Call::PhyRelease), released);
    }
}

#[test]
fn platform_power_management() {
    let state = hw(MacType::Mac_pch_lpt);
    let mut sim = linked(1000, 2);
    let (_, res) = drive(state, &mut sim, |a| platform_pm_pch_lpt(a, true));
    assert_eq!(res, Ok(()));
    assert_eq!(sim.reg(E1000_LTRV), 0xC008_8008);
    assert_eq!(sim.reg(E1000_SVT), 24);
    assert_eq!(sim.reg(E1000_SVCR), 0x1001);
    // The larger of the two limits of the platform counts.
    sim.pci.insert(0xA8, 0);
    sim.pci.insert(0xAA, 5);
    drive(state, &mut sim, |a| platform_pm_pch_lpt(a, true)).1.unwrap();
    assert_eq!(sim.reg(E1000_LTRV), 0xC005_8005);
    assert_eq!(sim.reg(E1000_SVT), 24);
    // Larger frames than the buffer can make up for: no latency is tolerated.
    let mut state = hw(MacType::Mac_pch_lpt);
    state.mac.max_frame_size = 1518;
    drive(state, &mut sim, |a| platform_pm_pch_lpt(a, true)).1.unwrap();
    assert_eq!(sim.reg(E1000_LTRV), 0xC000_8000);
    assert_eq!(sim.reg(E1000_SVT), 0);
}

#[test]
fn platform_power_management_errors() {
    let mut state = hw(MacType::Mac_pch_lpt);
    state.mac.max_frame_size = 0;
    let (_, res) = drive(state, &mut linked(1000, 2), |a| platform_pm_pch_lpt(a, true));
    assert_eq!(res, Err(Error::MaxFrameSizeNotSet));
    let (_, res) =
        drive(hw(MacType::Mac_pch_lpt), &mut linked(0, 2), |a| platform_pm_pch_lpt(a, true));
    assert_eq!(res, Err(Error::SpeedNotSet));
    let mut state = hw(MacType::Mac_pch_lpt);
    state.mac.ops.get_link_up_info = None;
    let (_, res) = drive(state, &mut linked(1000, 2), |a| platform_pm_pch_lpt(a, true));
    assert_eq!(res, Err(Error::NoFunction));
    // A mark of 40 KB does not fit its field.
    let mut sim = linked(1000, 2);
    sim.regs.insert(E1000_PBA, 40);
    let (_, res) = drive(hw(MacType::Mac_pch_lpt), &mut sim, |a| platform_pm_pch_lpt(a, true));
    assert_eq!(res, Err(Error::InvalidHighWaterMark(40)));
    let mut state = hw(MacType::Mac_pch_lpt);
    state.mac.ops.get_link_up_info = Some(Func::Other(8));
    let mut sim = linked(1000, 2);
    sim.failing = vec![(Call::OpLinkUpInfo(Func::Other(8), 0, 0), 2)];
    let (_, res) = drive(state, &mut sim, |a| platform_pm_pch_lpt(a, true));
    assert_eq!(res, Err(Error::Reported(2)));
}

#[test]
fn link_information() {
    let info = |state: Hw, sim: &mut Sim| {
        drive(state, sim, |a| {
            let (mut speed, mut duplex) = (1, 2);
            let res = get_link_up_info_ich8lan(a, &mut speed, &mut duplex);
            (res, speed, duplex)
        })
        .1
    };
    let mut sim = linked(100, 1);
    assert_eq!(info(hw(MacType::Mac_pch_lpt), &mut sim), (Ok(()), 100, 1));
    assert_eq!(sim.calls(), vec![Call::GetSpeedAndDuplexCopperGeneric(1, 2)]);
    sim.failing = vec![(Call::Incomplete(Feature::LinkUpInfoIgp3), 7)];
    let mut state = hw(MacType::Mac_ich8lan);
    assert_eq!(info(state, &mut sim).0, Ok(()));
    state.phy.phy_type = PhyType::Type_igp_3;
    assert_eq!(info(state, &mut sim), (Err(Error::Reported(7)), 100, 1));
    sim.failing = vec![(Call::GetSpeedAndDuplexCopperGeneric(1, 2), 8)];
    assert_eq!(info(state, &mut sim).0, Err(Error::Reported(8)));
}

#[test]
fn link_functions_that_are_not_implemented() {
    let features = [
        Feature::K1GigWorkaroundHv,
        Feature::ConfigureK1Ich8lan,
        Feature::K1WorkaroundLv,
        Feature::SetObffTimerPchLpt,
        Feature::KmrnLockLossWorkaroundIch8lan,
        Feature::SetupCopperLinkIch8lan,
    ];
    for (i, feature) in features.iter().enumerate() {
        let mut sim = Sim::new();
        sim.failing = vec![(Call::Incomplete(*feature), 40)];
        let (_, res) = drive(hw(MacType::Mac_pch_spt), &mut sim, |a| match i {
            0 => k1_gig_workaround_hv(a, true),
            1 => configure_k1_ich8lan(a, true),
            2 => k1_workaround_lv(a),
            3 => set_obff_timer_pch_lpt(a, 4),
            4 => kmrn_lock_loss_workaround_ich8lan(a),
            _ => setup_copper_link_ich8lan(a),
        });
        assert_eq!(res, Err(Error::Reported(40)));
        assert_eq!(sim.calls(), vec![Call::Incomplete(*feature)]);
    }
}

#[test]
fn runs_stall_and_resume() {
    // Without answers the check asks whether there is a link, and stops.
    let mut a = Adapter::new(hw(MacType::Mac_pch_spt), vec![]);
    let _ = check_for_copper_link_ich8lan(&mut a);
    assert!(a.is_stalled());
    assert_eq!(a.io.trace.len(), 1);
    assert_eq!(a.io.used, 0);
    // With each further answer it does the same and then more.
    let mut sim = linked(1000, 2);
    let mut replies = vec![];
    let mut before: Vec<Action> = vec![];
    loop {
        let mut a = Adapter::new(hw(MacType::Mac_pch_spt), replies.clone());
        let res = check_for_copper_link_ich8lan(&mut a);
        assert_eq!(a.io.trace[..before.len()], before[..]);
        assert_eq!(a.io.used, replies.len());
        for action in &a.io.trace[before.len()..] {
            if let Some(reply) = sim.perform(action) {
                replies.push(reply);
            }
        }
        before = a.io.trace.clone();
        if !a.is_stalled() {
            assert_eq!(res, Ok(()));
            return;
        }
        assert!(before.last().unwrap().needs_answer());
    }
}

#[test]
fn answers_of_the_wrong_sort_stall() {
    let mut a = Adapter::new(hw(MacType::Mac_pch_spt), vec![Reply::Value(1)]);
    let _ = check_for_copper_link_ich8lan(&mut a);
    assert!(a.is_stalled());
    // A call may not break the invariant of the state.
    let mut broken = hw(MacType::Mac_pch_spt);
    broken.mac.mta_reg_count = 200;
    let ret = Return { result: Ok(()), value: 0, extra: 0, hw: broken };
    let mut a = Adapter::new(hw(MacType::Mac_pch_spt), vec![Reply::Returned(Box::new(ret))]);
    let _ = check_for_copper_link_ich8lan(&mut a);
    assert!(a.is_stalled());
    assert_eq!(a.hw.mac.mta_reg_count, 0);
}
