//! The flash controller and the NVM, against a simulated device.

#![allow(dead_code)]

use std::collections::BTreeMap;

use e1000_ich8lan::consts::{E1000_EECD, E1000_STRAP};
use e1000_ich8lan::error::Error;
use e1000_ich8lan::flash::{
    erase_flash_bank_ich8lan, flash_cycle_ich8lan, flash_cycle_init_ich8lan,
    read_flash_byte_ich8lan, read_flash_data32_ich8lan, read_flash_data_ich8lan,
    read_flash_dword_ich8lan, read_flash_word_ich8lan, retry_write_flash_byte_ich8lan,
    retry_write_flash_dword_ich8lan, write_flash_byte_ich8lan, write_flash_data32_ich8lan,
    write_flash_data_ich8lan,
};
use e1000_ich8lan::hw::{Func, Hw, MacType, NvmType, PhyType, ShadowRam};
use e1000_ich8lan::io::{Action, Adapter, Call, Feature, Reply, Return};
use e1000_ich8lan::nvm::{
    acquire_nvm_ich8lan, init_nvm_params_ich8lan, read_nvm_ich8lan, read_nvm_spt,
    release_nvm_ich8lan, update_nvm_checksum_ich8lan, update_nvm_checksum_spt,
    valid_led_default_ich8lan, valid_nvm_bank_detect_ich8lan, validate_nvm_checksum_ich8lan,
    write_nvm_ich8lan,
};

/// A device and the rest of the driver, as the functions under test see them.
struct Sim {
    regs: BTreeMap<u32, u32>,
    /// Values that a register gives before it settles at the one in `regs`.
    queued: BTreeMap<u32, Vec<u32>>,
    phy: BTreeMap<u32, u16>,
    kmrn: BTreeMap<u32, u16>,
    nvm: BTreeMap<u16, u16>,
    pci: BTreeMap<u32, u32>,
    flash: Flash,
    reset_blocked: bool,
    link: bool,
    speed: u16,
    duplex: u16,
    phy_type: PhyType,
    /// Calls that fail, with the number of the error.
    failing: Vec<(Call, u32)>,
    /// What was performed, in order.
    log: Vec<Action>,
}

/// The flash controller and its memory.
struct Flash {
    memory: Vec<u8>,
    status: u16,
    ctrl: u16,
    addr: u32,
    data: u32,
    gfpreg: u32,
    /// How many of the next cycles end with an error.
    errors: u32,
    /// Whether cycles never end.
    dead: bool,
}

impl Flash {
    fn new() -> Flash {
        Flash {
            memory: vec![0xFF; 0x4000],
            status: 0x4000,
            ctrl: 0,
            addr: 0,
            data: 0,
            gfpreg: 0,
            errors: 0,
            dead: false,
        }
    }

    fn set_word(&mut self, word: usize, value: u16) {
        self.memory[word * 2] = value as u8;
        self.memory[word * 2 + 1] = (value >> 8) as u8;
    }

    fn word(&self, word: usize) -> u16 {
        self.memory[word * 2] as u16 | (self.memory[word * 2 + 1] as u16) << 8
    }

    fn write_status(&mut self, value: u16) {
        // The done and error bits are cleared by writing 1.
        self.status &= !(value & 0x7);
    }

    fn write_ctrl(&mut self, value: u16) {
        self.ctrl = value & !1;
        if value & 1 == 0 || self.dead {
            return;
        }
        if self.errors > 0 {
            self.errors -= 1;
            self.status |= 0x3;
            return;
        }
        let bytes = ((value >> 8) & 3) as usize + 1;
        let at = self.addr as usize;
        if (value >> 1) & 3 == 2 {
            for i in 0..bytes {
                self.memory[at + i] = (self.data >> (8 * i)) as u8;
            }
        } else {
            self.data = 0;
            for i in 0..bytes {
                self.data |= (self.memory[at + i] as u32) << (8 * i);
            }
        }
        self.status |= 1;
    }
}

impl Sim {
    fn new() -> Sim {
        Sim {
            regs: BTreeMap::new(),
            queued: BTreeMap::new(),
            phy: BTreeMap::new(),
            kmrn: BTreeMap::new(),
            nvm: BTreeMap::new(),
            pci: BTreeMap::new(),
            flash: Flash::new(),
            reset_blocked: false,
            link: false,
            speed: 0,
            duplex: 0,
            phy_type: PhyType::Type_i217,
            failing: vec![],
            log: vec![],
        }
    }

    fn reg(&self, reg: u32) -> u32 {
        *self.regs.get(&reg).unwrap_or(&0)
    }

    fn phy_reg(&self, reg: u32) -> u16 {
        *self.phy.get(&reg).unwrap_or(&0)
    }

    /// Performs an operation, and gives its answer if it asks for one.
    fn perform(&mut self, action: &Action) -> Option<Reply> {
        self.log.push(action.clone());
        match action {
            Action::ReadRegister(reg) => {
                if let Some(values) = self.queued.get_mut(reg) {
                    if !values.is_empty() {
                        return Some(Reply::Value(values.remove(0)));
                    }
                }
                Some(Reply::Value(self.reg(*reg)))
            }
            Action::WriteRegister(reg, value) => {
                self.regs.insert(*reg, *value);
                None
            }
            Action::SetRegisterBit(reg, mask) => {
                let value = self.reg(*reg) | mask;
                self.regs.insert(*reg, value);
                None
            }
            Action::ClearRegisterBit(reg, mask) => {
                let value = self.reg(*reg) & !mask;
                self.regs.insert(*reg, value);
                None
            }
            Action::ReadFlashRegister(reg) => Some(Reply::Value(match *reg {
                0x00 => self.flash.gfpreg,
                0x04 => self.flash.status as u32 | (self.flash.ctrl as u32) << 16,
                0x08 => self.flash.addr,
                _ => self.flash.data,
            })),
            Action::ReadFlashRegister16(reg) => Some(Reply::Value(match *reg {
                0x04 => self.flash.status as u32,
                _ => self.flash.ctrl as u32,
            })),
            Action::WriteFlashRegister(reg, value) => {
                match *reg {
                    0x04 => {
                        self.flash.write_status(*value as u16);
                        if *value >> 16 != 0 {
                            self.flash.write_ctrl((*value >> 16) as u16);
                        }
                    }
                    0x08 => self.flash.addr = *value,
                    _ => self.flash.data = *value,
                }
                None
            }
            Action::WriteFlashRegister16(reg, value) => {
                match *reg {
                    0x04 => self.flash.write_status(*value),
                    _ => self.flash.write_ctrl(*value),
                }
                None
            }
            Action::ReadPciConfig(offset, _) => {
                Some(Reply::Value(*self.pci.get(offset).unwrap_or(&0)))
            }
            Action::PhyTypeFromId(_) => Some(Reply::PhyType(self.phy_type)),
            Action::Call(call, hw) => Some(self.call(call, **hw)),
            _ => None,
        }
    }

    fn call(&mut self, call: &Call, hw: Hw) -> Reply {
        let mut ret = Return { result: Ok(()), value: 0, extra: 0, hw };
        for (failing, number) in &self.failing {
            if failing == call {
                ret.result = Err(Error::Reported(*number));
                return Reply::Returned(Box::new(ret));
            }
        }
        match *call {
            Call::PhyReadReg(reg, _)
            | Call::PhyReadRegLocked(reg, _)
            | Call::ReadPhyRegHvLocked(reg, _)
            | Call::OpReadReg(_, reg, _) => ret.value = self.phy_reg(reg) as u32,
            Call::PhyWriteReg(reg, v)
            | Call::PhyWriteRegLocked(reg, v)
            | Call::WritePhyRegHvLocked(reg, v)
            | Call::OpWriteReg(_, reg, v) => {
                self.phy.insert(reg, v);
            }
            Call::ReadKmrnReg(reg, _) | Call::ReadKmrnRegLocked(reg, _) => {
                ret.value = *self.kmrn.get(&reg).unwrap_or(&0) as u32
            }
            Call::WriteKmrnReg(reg, v) | Call::WriteKmrnRegLocked(reg, v) => {
                self.kmrn.insert(reg, v);
            }
            Call::NvmReadWord(word, _) => {
                ret.value = *self.nvm.get(&word).unwrap_or(&0xFFFF) as u32
            }
            Call::NvmWriteWord(word, v) => {
                self.nvm.insert(word, v);
            }
            Call::CheckResetBlock => ret.value = self.reset_blocked as u32,
            Call::HasLinkGeneric(_, _, _) => ret.value = self.link as u32,
            Call::GetSpeedAndDuplexCopperGeneric(_, _) => {
                ret.value = self.speed as u32;
                ret.extra = self.duplex as u32;
            }
            Call::EnablePhyWakeupRegAccessBm(_) => ret.value = 0x77,
            Call::GetPhyId => ret.hw.phy.id = 0x0154_00A0,
            _ => {}
        }
        Reply::Returned(Box::new(ret))
    }

    fn calls(&self) -> Vec<Call> {
        let mut calls = vec![];
        for action in &self.log {
            if let Action::Call(call, _) = action {
                calls.push(*call);
            }
        }
        calls
    }

    fn count(&self, action: &Action) -> usize {
        self.log.iter().filter(|a| *a == action).count()
    }
}

/// Runs a function to its end against the device: whenever it stalls, performs
/// what it has recorded since, and starts it again with one more answer.
fn drive<T>(hw: Hw, sim: &mut Sim, f: impl Fn(&mut Adapter) -> T) -> (Hw, T) {
    let mut replies: Vec<Reply> = vec![];
    let mut performed = 0;
    loop {
        let mut adapter = Adapter::new(hw, replies.clone());
        let out = f(&mut adapter);
        for action in &adapter.io.trace[performed..] {
            let answer = sim.perform(action);
            assert_eq!(answer.is_some(), action.needs_answer());
            if let Some(reply) = answer {
                replies.push(reply);
            }
        }
        performed = adapter.io.trace.len();
        if !adapter.is_stalled() {
            assert_eq!(adapter.io.used, replies.len());
            return (adapter.hw, out);
        }
    }
}

fn hw(mac_type: MacType) -> Hw {
    Hw::new(mac_type, 0x1559)
}

fn nvm_hw(mac_type: MacType) -> Hw {
    let mut hw = hw(mac_type);
    hw.flash_address = 0x1000;
    let mut sim = Sim::new();
    sim.flash.gfpreg = 0x0001_0000;
    sim.regs.insert(E1000_STRAP, 0x2);
    let (hw, res) = drive(hw, &mut sim, |a| init_nvm_params_ich8lan(a));
    assert_eq!(res, Ok(()));
    hw
}

#[test]
fn flash_word_and_byte_reads() {
    let mut sim = Sim::new();
    sim.flash.set_word(5, 0xBEEF);
    let (_, (res, word)) = drive(hw(MacType::Mac_pch_lpt), &mut sim, |a| {
        let mut data: u16 = 0;
        (read_flash_word_ich8lan(a, 5, &mut data), data)
    });
    assert_eq!((res, word), (Ok(()), 0xBEEF));
    let (_, (res, byte)) = drive(hw(MacType::Mac_pch_lpt), &mut sim, |a| {
        let mut data: u8 = 0;
        (read_flash_byte_ich8lan(a, 11, &mut data), data)
    });
    assert_eq!((res, byte), (Ok(()), 0xBE));
}

#[test]
fn flash_dword_read() {
    let mut sim = Sim::new();
    sim.flash.set_word(6, 0x1234);
    sim.flash.set_word(7, 0x5678);
    let (_, (res, dword)) = drive(hw(MacType::Mac_pch_spt), &mut sim, |a| {
        let mut data: u32 = 0;
        (read_flash_dword_ich8lan(a, 6, &mut data), data)
    });
    assert_eq!((res, dword), (Ok(()), 0x5678_1234));
}

#[test]
fn flash_dword_write_is_read_back() {
    for mac_type in [MacType::Mac_pch_lpt, MacType::Mac_pch_spt] {
        let mut sim = Sim::new();
        let (_, res) = drive(hw(mac_type), &mut sim, |a| {
            write_flash_data32_ich8lan(a, 0x40, 0xCAFE_F00D)
        });
        assert_eq!(res, Ok(()));
        assert_eq!(sim.flash.word(0x20), 0xF00D);
        assert_eq!(sim.flash.word(0x21), 0xCAFE);
    }
}

#[test]
fn flash_base_address_is_added() {
    let mut state = hw(MacType::Mac_pch_lpt);
    state.nvm.flash_base_addr = 0x1000;
    let mut sim = Sim::new();
    sim.flash.set_word(0x801, 0x4321);
    let (_, (res, word)) = drive(state, &mut sim, |a| {
        let mut data: u16 = 0;
        (read_flash_data_ich8lan(a, 2, 2, &mut data), data)
    });
    assert_eq!((res, word), (Ok(()), 0x4321));
}

#[test]
fn flash_accesses_out_of_bounds() {
    let mut sim = Sim::new();
    let mut word: u16 = 7;
    let mut dword: u32 = 7;
    let mut byte: u8 = 7;
    let mut a = Adapter::new(hw(MacType::Mac_pch_lpt), vec![]);
    for (offset, size) in [(0, 0), (0, 3), (0x0100_0000, 1)] {
        assert_eq!(
            read_flash_data_ich8lan(&mut a, offset, size, &mut word),
            Err(Error::FlashSizeOrOffset)
        );
    }
    assert_eq!(
        read_flash_data32_ich8lan(&mut a, 0, &mut dword),
        Err(Error::FlashOffsetOrHardware)
    );
    let mut b = Adapter::new(hw(MacType::Mac_pch_spt), vec![]);
    assert_eq!(
        read_flash_data32_ich8lan(&mut b, 0x0100_0000, &mut dword),
        Err(Error::FlashOffsetOrHardware)
    );
    assert_eq!(read_flash_byte_ich8lan(&mut b, 0, &mut byte), Err(Error::DwordAccessOnly));
    assert_eq!(
        write_flash_data32_ich8lan(&mut b, 0x0100_0000, 1),
        Err(Error::FlashOffset)
    );
    assert_eq!((word, dword, byte), (7, 7, 7));
    assert!(a.io.trace.is_empty() && b.io.trace.is_empty());
    // Before Sunrise Point a write takes the address modulo the flash size.
    let (_, res) = drive(hw(MacType::Mac_pch_lpt), &mut sim, |a| {
        write_flash_data32_ich8lan(a, 0x0100_0000, 0x1111_2222)
    });
    assert_eq!(res, Ok(()));
    assert_eq!(sim.flash.word(0), 0x2222);
}

#[test]
fn flash_without_descriptor() {
    let mut sim = Sim::new();
    sim.flash.status = 0;
    let (_, res) = drive(hw(MacType::Mac_pch_lpt), &mut sim, |a| flash_cycle_init_ich8lan(a));
    assert_eq!(res, Err(Error::FlashDescriptorInvalid));
    let (_, (res, word)) = drive(hw(MacType::Mac_pch_lpt), &mut sim, |a| {
        let mut data: u16 = 9;
        (read_flash_word_ich8lan(a, 0, &mut data), data)
    });
    assert_eq!((res, word), (Ok(()), 9));
}

#[test]
fn flash_that_stays_busy() {
    let mut sim = Sim::new();
    sim.flash.status = 0x4020;
    let (_, res) = drive(hw(MacType::Mac_pch_lpt), &mut sim, |a| flash_cycle_init_ich8lan(a));
    assert_eq!(res, Err(Error::FlashBusy));
    assert_eq!(sim.count(&Action::UsecDelay(1)), 500);
}

#[test]
fn flash_cycle_that_does_not_end() {
    let mut sim = Sim::new();
    sim.flash.dead = true;
    let (_, res) = drive(hw(MacType::Mac_pch_lpt), &mut sim, |a| flash_cycle_ich8lan(a, 3));
    assert_eq!(res, Err(Error::FlashCycleTimeout));
    assert_eq!(sim.count(&Action::UsecDelay(1)), 4);
}

#[test]
fn flash_cycle_errors_are_retried() {
    let mut sim = Sim::new();
    sim.flash.set_word(1, 0x0102);
    sim.flash.errors = 10;
    let (_, (res, word)) = drive(hw(MacType::Mac_pch_lpt), &mut sim, |a| {
        let mut data: u16 = 0;
        (read_flash_word_ich8lan(a, 1, &mut data), data)
    });
    assert_eq!((res, word), (Ok(()), 0x0102));
}

#[test]
fn flash_cycle_errors_are_not_retried_for_ever() {
    let started = |sim: &Sim| {
        sim.log.iter().filter(|a| matches!(a, Action::WriteFlashRegister(0x08, _))).count()
    };
    let mut sim = Sim::new();
    sim.flash.errors = u32::MAX;
    let (_, (res, word)) = drive(hw(MacType::Mac_pch_lpt), &mut sim, |a| {
        let mut data: u16 = 0x5A5A;
        (read_flash_word_ich8lan(a, 1, &mut data), data)
    });
    assert_eq!((res, word), (Ok(()), 0x5A5A));
    assert_eq!(started(&sim), 11);
    let mut sim = Sim::new();
    sim.flash.errors = u32::MAX;
    let (_, (res, dword)) = drive(hw(MacType::Mac_pch_spt), &mut sim, |a| {
        let mut data: u32 = 7;
        (read_flash_dword_ich8lan(a, 1, &mut data), data)
    });
    assert_eq!((res, dword), (Ok(()), 7));
    assert_eq!(started(&sim), 11);
    let mut sim = Sim::new();
    sim.flash.errors = u32::MAX;
    let (_, res) = drive(hw(MacType::Mac_pch_spt), &mut sim, |a| {
        write_flash_data32_ich8lan(a, 0, 1)
    });
    assert_eq!(res, Ok(()));
    assert_eq!(started(&sim), 11);
}

#[test]
fn words_at_once_or_singly() {
    let mut state = nvm_hw(MacType::Mac_pch_lpt);
    state.dev_spec.shadow_ram[6] = ShadowRam { modified: true, value: 0x6666 };
    let mut sim = Sim::new();
    sim.flash.set_word(0x13, 0x8000);
    for word in 4..9 {
        sim.flash.set_word(word, 0x1000 + word as u16);
    }
    let (_, (res, at_once)) = drive(state, &mut sim, |a| {
        let mut data = [0u16; 5];
        (read_nvm_ich8lan(a, 4, 5, &mut data), data)
    });
    assert_eq!((res, at_once), (Ok(()), [0x1004, 0x1005, 0x6666, 0x1007, 0x1008]));
    for (i, word) in at_once.iter().enumerate() {
        let (_, (res, single)) = drive(state, &mut sim, |a| {
            let mut data = [0u16; 1];
            (read_nvm_ich8lan(a, 4 + i as u16, 1, &mut data), data)
        });
        assert_eq!((res, single[0]), (Ok(()), *word));
    }
}

#[test]
fn halves_at_once_or_singly() {
    let mut state = nvm_hw(MacType::Mac_pch_spt);
    state.dev_spec.shadow_ram[6] = ShadowRam { modified: true, value: 0x6666 };
    let mut sim = Sim::new();
    sim.flash.set_word(0x13, 0x8000);
    for word in 4..9 {
        sim.flash.set_word(word, 0x1000 + word as u16);
    }
    let (_, (res, at_once)) = drive(state, &mut sim, |a| {
        let mut data = [0u16; 5];
        (read_nvm_spt(a, 4, 5, &mut data), data)
    });
    assert_eq!((res, at_once), (Ok(()), [0x1004, 0x1005, 0x6666, 0x1007, 0x1008]));
    for (i, word) in at_once.iter().enumerate() {
        let (_, (res, single)) = drive(state, &mut sim, |a| {
            let mut data = [0u16; 1];
            (read_nvm_spt(a, 4 + i as u16, 1, &mut data), data)
        });
        assert_eq!((res, single[0]), (Ok(()), *word));
    }
}

#[test]
fn nvm_parameters_before_sunrise_point() {
    let mut state = hw(MacType::Mac_pch_lpt);
    let mut a = Adapter::new(state, vec![]);
    assert_eq!(init_nvm_params_ich8lan(&mut a), Err(Error::FlashNotMapped));
    assert_eq!(a.hw.nvm.nvm_type, NvmType::FlashSw);
    state.flash_address = 0x1000;
    state.dev_spec.shadow_ram[3].modified = true;
    let mut sim = Sim::new();
    sim.flash.gfpreg = 0x0003_0001;
    let (state, res) = drive(state, &mut sim, |a| init_nvm_params_ich8lan(a));
    assert_eq!(res, Ok(()));
    assert_eq!(state.nvm.flash_base_addr, 0x1000);
    // Sectors 1 to 3 are 12 KB; a bank is half of that, in words.
    assert_eq!(state.nvm.flash_bank_size, 3072);
    assert_eq!(state.nvm.word_size, 2048);
    assert!(!state.dev_spec.shadow_ram[3].modified);
    assert_eq!(state.dev_spec.shadow_ram[3].value, 0xFFFF);
    assert_eq!(state.nvm.ops.read, Some(Func::ReadNvmIch8lan));
    assert_eq!(state.nvm.ops.update, Some(Func::UpdateNvmChecksumIch8lan));
}

#[test]
fn nvm_parameters_from_sunrise_point_on() {
    let mut state = hw(MacType::Mac_pch_spt);
    state.hw_addr = 0xF000_0000;
    let mut sim = Sim::new();
    sim.regs.insert(E1000_STRAP, 0x1E);
    let (state, res) = drive(state, &mut sim, |a| init_nvm_params_ich8lan(a));
    assert_eq!(res, Ok(()));
    assert_eq!(state.nvm.flash_base_addr, 0);
    assert_eq!(state.nvm.flash_bank_size, 16384);
    assert_eq!(state.flash_address, 0xF000_E000);
    assert_eq!(state.nvm.ops.read, Some(Func::ReadNvmSpt));
    assert_eq!(state.nvm.ops.update, Some(Func::UpdateNvmChecksumSpt));
    assert_eq!(state.nvm.ops.valid_led_default, Some(Func::ValidLedDefaultIch8lan));
}

#[test]
fn bank_by_signature_byte() {
    let state = nvm_hw(MacType::Mac_pch_lpt);
    let bank_words = state.nvm.flash_bank_size as usize;
    let find = |sim: &mut Sim| {
        drive(state, sim, |a| {
            let mut bank: u32 = 5;
            (valid_nvm_bank_detect_ich8lan(a, &mut bank), bank)
        })
        .1
    };
    let mut sim = Sim::new();
    assert_eq!(find(&mut sim), (Err(Error::NoValidNvmBank), 0));
    sim.flash.set_word(0x13 + bank_words, 0x8000);
    assert_eq!(find(&mut sim), (Ok(()), 1));
    sim.flash.set_word(0x13, 0xBFFF);
    assert_eq!(find(&mut sim), (Ok(()), 0));
}

#[test]
fn bank_by_signature_dword() {
    let state = nvm_hw(MacType::Mac_pch_spt);
    let bank_words = state.nvm.flash_bank_size as usize;
    let find = |sim: &mut Sim| {
        drive(state, sim, |a| {
            let mut bank: u32 = 5;
            (valid_nvm_bank_detect_ich8lan(a, &mut bank), bank)
        })
        .1
    };
    let mut sim = Sim::new();
    assert_eq!(find(&mut sim), (Err(Error::NoValidNvmBank), 0));
    sim.flash.set_word(0x13 + bank_words, 0x8000);
    assert_eq!(find(&mut sim), (Ok(()), 1));
    sim.flash.set_word(0x13, 0x8000);
    assert_eq!(find(&mut sim), (Ok(()), 0));
}

#[test]
fn bank_by_eeprom_control() {
    let state = nvm_hw(MacType::Mac_ich9lan);
    let mut sim = Sim::new();
    sim.regs.insert(E1000_EECD, 0x0040_0300);
    let (_, found) = drive(state, &mut sim, |a| {
        let mut bank: u32 = 0;
        (valid_nvm_bank_detect_ich8lan(a, &mut bank), bank)
    });
    assert_eq!(found, (Ok(()), 1));
    sim.regs.insert(E1000_EECD, 0x300);
    let (_, found) = drive(state, &mut sim, |a| {
        let mut bank: u32 = 1;
        (valid_nvm_bank_detect_ich8lan(a, &mut bank), bank)
    });
    assert_eq!(found, (Ok(()), 0));
    // A register that does not know leaves it to the signature.
    sim.regs.insert(E1000_EECD, 0x0040_0100);
    sim.flash.set_word(0x13, 0x8000);
    let (_, found) = drive(state, &mut sim, |a| {
        let mut bank: u32 = 1;
        (valid_nvm_bank_detect_ich8lan(a, &mut bank), bank)
    });
    assert_eq!(found, (Ok(()), 0));
}

#[test]
fn nvm_words_come_from_the_valid_bank() {
    for (mac_type, spt) in [(MacType::Mac_pch_lpt, false), (MacType::Mac_pch_spt, true)] {
        let mut state = nvm_hw(mac_type);
        let bank_words = state.nvm.flash_bank_size as usize;
        let mut sim = Sim::new();
        sim.flash.set_word(0x13 + bank_words, 0x8000);
        for i in 0..8 {
            sim.flash.set_word(bank_words + 0x20 + i, 0x1000 + i as u16);
        }
        state.dev_spec.shadow_ram[0x22].modified = true;
        state.dev_spec.shadow_ram[0x22].value = 0xAAAA;
        state.dev_spec.shadow_ram[0x25].modified = true;
        state.dev_spec.shadow_ram[0x25].value = 0xBBBB;
        for words in 1..8u16 {
            let (_, (res, data)) = drive(state, &mut sim, |a| {
                let mut data = [0xEEEEu16; 9];
                let res = if spt {
                    read_nvm_spt(a, 0x20, words, &mut data)
                } else {
                    read_nvm_ich8lan(a, 0x20, words, &mut data)
                };
                (res, data)
            });
            assert_eq!(res, Ok(()));
            let all = [0x1000, 0x1001, 0xAAAA, 0x1003, 0x1004, 0xBBBB, 0x1006, 0x1007];
            for i in 0..9 {
                let expected = if i < words as usize { all[i] } else { 0xEEEE };
                assert_eq!(data[i], expected);
            }
        }
    }
}

#[test]
fn odd_nvm_words_by_dword() {
    let state = nvm_hw(MacType::Mac_pch_spt);
    let mut sim = Sim::new();
    sim.flash.set_word(0x13, 0x8000);
    sim.flash.set_word(0x30, 0x0030);
    sim.flash.set_word(0x31, 0x0031);
    let (_, (res, data)) = drive(state, &mut sim, |a| {
        let mut data = [0u16; 1];
        (read_nvm_spt(a, 0x31, 1, &mut data), data)
    });
    assert_eq!((res, data[0]), (Ok(()), 0x0031));
    // The doubleword that holds the word is aligned.
    assert_eq!(sim.flash.addr, 0x60);
}

#[test]
fn pending_pair_is_not_read_from_flash() {
    let mut state = nvm_hw(MacType::Mac_pch_spt);
    for i in 0..2 {
        state.dev_spec.shadow_ram[0x40 + i].modified = true;
        state.dev_spec.shadow_ram[0x40 + i].value = 0x40 + i as u16;
    }
    let mut sim = Sim::new();
    sim.flash.set_word(0x13, 0x8000);
    let (_, (res, data)) = drive(state, &mut sim, |a| {
        let mut data = [0u16; 2];
        (read_nvm_spt(a, 0x40, 2, &mut data), data)
    });
    assert_eq!((res, data), (Ok(()), [0x40, 0x41]));
    assert_eq!(sim.flash.addr, 0x26);
}

#[test]
fn nvm_words_out_of_bounds() {
    for (offset, words) in [(2048, 1), (2047, 2), (0, 0), (0, 2049), (u16::MAX, u16::MAX)] {
        let mut a = Adapter::new(nvm_hw(MacType::Mac_pch_lpt), vec![]);
        let mut data = [3u16; 1];
        assert_eq!(
            read_nvm_ich8lan(&mut a, offset, words, &mut data),
            Err(Error::NvmParameter)
        );
        assert_eq!(
            read_nvm_spt(&mut a, offset, words, &mut data),
            Err(Error::NvmParameters)
        );
        assert_eq!(data, [3]);
        assert!(a.io.trace.is_empty());
    }
}

#[test]
fn nvm_without_valid_bank() {
    let state = nvm_hw(MacType::Mac_pch_spt);
    let mut sim = Sim::new();
    let (_, res) = drive(state, &mut sim, |a| read_nvm_spt(a, 0, 1, &mut [0u16; 1]));
    assert_eq!(res, Err(Error::NoValidNvmBank));
    // The NVM was acquired and is not released.
    assert_eq!(sim.count(&Action::AssertCtxLockHeld), 1);
    // By words the first bank is taken.
    let state = nvm_hw(MacType::Mac_pch_lpt);
    sim.flash.set_word(2, 0x2222);
    let (_, (res, data)) = drive(state, &mut sim, |a| {
        let mut data = [0u16; 1];
        (read_nvm_ich8lan(a, 2, 1, &mut data), data)
    });
    assert_eq!((res, data[0]), (Ok(()), 0x2222));
}

#[test]
fn nvm_without_functions() {
    let mut state = nvm_hw(MacType::Mac_pch_lpt);
    state.nvm.ops.acquire = None;
    let mut a = Adapter::new(state, vec![]);
    assert_eq!(
        read_nvm_ich8lan(&mut a, 0, 1, &mut [0u16; 1]),
        Err(Error::NoFunction)
    );
    let mut state = nvm_hw(MacType::Mac_pch_lpt);
    state.nvm.ops.release = None;
    let mut sim = Sim::new();
    let (_, res) = drive(state, &mut sim, |a| read_nvm_ich8lan(a, 0, 1, &mut [0u16; 1]));
    assert_eq!(res, Err(Error::NoFunction));
}

#[test]
fn nvm_mutex_is_the_context_lock() {
    let mut a = Adapter::new(hw(MacType::Mac_pch_lpt), vec![]);
    assert_eq!(acquire_nvm_ich8lan(&mut a), Ok(()));
    release_nvm_ich8lan(&mut a);
    assert_eq!(a.io.trace, vec![Action::AssertCtxLockHeld, Action::AssertCtxLockHeld]);
}

#[test]
fn valid_checksum_bit_is_left() {
    let state = nvm_hw(MacType::Mac_pch_spt);
    let mut sim = Sim::new();
    sim.nvm.insert(0x03, 0x0001);
    let (_, res) = drive(state, &mut sim, |a| validate_nvm_checksum_ich8lan(a));
    assert_eq!(res, Ok(()));
    assert_eq!(
        sim.calls(),
        vec![Call::NvmReadWord(0x03, 0), Call::ValidateNvmChecksumGeneric]
    );
}

#[test]
fn invalid_checksum_bit_is_set() {
    let state = nvm_hw(MacType::Mac_pch2lan);
    let mut sim = Sim::new();
    sim.nvm.insert(0x19, 0x0F00);
    let (_, res) = drive(state, &mut sim, |a| validate_nvm_checksum_ich8lan(a));
    assert_eq!(res, Ok(()));
    assert_eq!(
        sim.calls(),
        vec![
            Call::NvmReadWord(0x19, 0),
            Call::NvmWriteWord(0x19, 0x0F40),
            Call::Incomplete(Feature::UpdateNvmChecksumIch8lan),
            Call::ValidateNvmChecksumGeneric,
        ]
    );
    sim.log.clear();
    sim.nvm.insert(0x19, 0);
    sim.failing = vec![(Call::Incomplete(Feature::UpdateNvmChecksumIch8lan), 4)];
    let (_, res) = drive(state, &mut sim, |a| validate_nvm_checksum_ich8lan(a));
    assert_eq!(res, Err(Error::Reported(4)));
}

#[test]
fn led_settings_have_a_default() {
    let state = nvm_hw(MacType::Mac_pch_spt);
    let read = |sim: &mut Sim| {
        drive(state, sim, |a| {
            let mut data = [0u16, 9];
            let res = valid_led_default_ich8lan(a, &mut data);
            (res, data)
        })
        .1
    };
    let mut sim = Sim::new();
    assert_eq!(read(&mut sim), (Ok(()), [0x1981, 9]));
    sim.nvm.insert(4, 0);
    assert_eq!(read(&mut sim), (Ok(()), [0x1981, 9]));
    sim.nvm.insert(4, 0x8911);
    assert_eq!(read(&mut sim), (Ok(()), [0x8911, 9]));
    sim.failing = vec![(Call::NvmReadWord(4, 0), 2)];
    assert_eq!(read(&mut sim).0, Err(Error::Reported(2)));
}

#[test]
fn flash_functions_that_are_not_implemented() {
    let features = [
        Feature::WriteNvmIch8lan,
        Feature::UpdateNvmChecksumSpt,
        Feature::UpdateNvmChecksumIch8lan,
        Feature::WriteFlashDataIch8lan,
        Feature::WriteFlashByteIch8lan,
        Feature::RetryWriteFlashDwordIch8lan,
        Feature::RetryWriteFlashByteIch8lan,
        Feature::EraseFlashBankIch8lan,
    ];
    for (i, feature) in features.iter().enumerate() {
        let mut sim = Sim::new();
        sim.failing = vec![(Call::Incomplete(*feature), 40)];
        let (_, res) = drive(hw(MacType::Mac_pch_spt), &mut sim, |a| match i {
            0 => write_nvm_ich8lan(a, 0, 1, &[1]),
            1 => update_nvm_checksum_spt(a),
            2 => update_nvm_checksum_ich8lan(a),
            3 => write_flash_data_ich8lan(a, 0, 1, 2),
            4 => write_flash_byte_ich8lan(a, 0, 1),
            5 => retry_write_flash_dword_ich8lan(a, 0, 1),
            6 => retry_write_flash_byte_ich8lan(a, 0, 1),
            _ => erase_flash_bank_ich8lan(a, 0),
        });
        assert_eq!(res, Err(Error::Reported(40)));
        assert_eq!(sim.calls(), vec![Call::Incomplete(*feature)]);
    }
}
