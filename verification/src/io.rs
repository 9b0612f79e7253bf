//! The adapter: the driver's software state together with a run of device
//! operations.
//!
//! The functions of this crate perform no I/O. They are handed the answers
//! that the device and the rest of the driver have given so far, and record
//! the operations that they ask for, in order. A function that needs an answer
//! which is not there yet records the operation that asks for it and *stalls*:
//! from then on nothing more is recorded and nothing is learned, and what the
//! function returns means nothing. Its caller performs the operations recorded
//! since the last time, appends the answer, and calls the function again on
//! the same software state. A function that ends without a stall has recorded
//! everything it does, and what it returns is its result.

use vstd::prelude::*;
use crate::error::{AdResult, Error};
use crate::hw::{Func, Hw, MacType, PhyType};

verus! {

/// What the driver does not do yet.
#[derive(Clone, Copy, Debug, PartialEq, Eq, Structural)]
pub enum Feature {
    SetEee82579,
    SetObffTimerPchLpt,
    EnableUlpLptLp,
    CheckLinkPchlan,
    CheckLinkPch2lan,
    CheckLink82578,
    RarSetPch2lan,
    K1GigWorkaroundHv,
    ConfigureK1Ich8lan,
    SetMdioSlowModeHv,
    HvPhyWorkaroundsIch8lan,
    LvJumboWorkaroundEnable,
    K1WorkaroundLv,
    SetLpluStatePchlan,
    SetD0LpluStateIch8lan,
    SetD3LpluStateIch8lan,
    WriteNvmIch8lan,
    UpdateNvmChecksumSpt,
    UpdateNvmChecksumIch8lan,
    WriteFlashDataIch8lan,
    WriteFlashByteIch8lan,
    RetryWriteFlashDwordIch8lan,
    RetryWriteFlashByteIch8lan,
    EraseFlashBankIch8lan,
    SetupCopperLinkIch8lan,
    LinkUpInfoIgp3,
    KmrnLockLossWorkaroundIch8lan,
    PhyInitScriptIgp3,
}

/// A call into the rest of the driver. Where the called function has a result
/// parameter, the call carries the value that the parameter holds before it.
#[derive(Clone, Copy, Debug, PartialEq, Eq, Structural)]
pub enum Call {
    // The PHY and the NVM, through the adapter's tables of operations.
    PhyAcquire,
    PhyRelease,
    PhyReset,
    CheckResetBlock,
    PhyReadReg(u32, u16),
    PhyReadRegLocked(u32, u16),
    PhyWriteReg(u32, u16),
    PhyWriteRegLocked(u32, u16),
    NvmReadWord(u16, u16),
    NvmWriteWord(u16, u16),
    // Generic PHY functions.
    GetPhyId,
    PhyHwResetGeneric,
    GetCfgDoneGeneric,
    HasLinkGeneric(u32, u32, bool),
    CheckDownshiftGeneric,
    CopperLinkSetup82577,
    SetupCopperLinkGeneric,
    ReadPhyRegHvLocked(u32, u16),
    WritePhyRegHvLocked(u32, u16),
    ReadKmrnReg(u32, u16),
    WriteKmrnReg(u32, u16),
    ReadKmrnRegLocked(u32, u16),
    WriteKmrnRegLocked(u32, u16),
    EnablePhyWakeupRegAccessBm(u16),
    DisablePhyWakeupRegAccessBm(u16),
    // Generic MAC functions.
    ClearHwCntrsBaseGeneric,
    ConfigFcAfterLinkUpGeneric,
    DisablePcieMasterGeneric,
    GetAutoRdDoneGeneric,
    GetBusInfoPcieGeneric,
    GetSpeedAndDuplexCopperGeneric(u16, u16),
    InitRxAddrsGeneric(u16),
    SetFcWatermarksGeneric,
    SetPcieNoSnoopGeneric(u32),
    UpdateMcAddrListGeneric(u32),
    // Generic NVM functions.
    ValidateNvmChecksumGeneric,
    // A function found in a table of operations.
    Op(Func),
    OpReadReg(Func, u32, u16),
    OpWriteReg(Func, u32, u16),
    OpSetPage(Func, u16),
    OpLinkUpInfo(Func, u16, u16),
    OpLedDefault(Func, u16),
    /// A path that the driver does not implement.
    Incomplete(Feature),
}

/// One operation that the driver asks for.
#[derive(Clone, Debug, PartialEq)]
pub enum Action {
    ReadRegister(u32),
    WriteRegister(u32, u32),
    WriteRegisterArray(u32, u32, u32),
    WriteFlush,
    SetRegisterBit(u32, u32),
    ClearRegisterBit(u32, u32),
    ReadFlashRegister(u32),
    ReadFlashRegister16(u32),
    WriteFlashRegister(u32, u32),
    WriteFlashRegister16(u32, u16),
    ReadPciConfig(u32, u32),
    MsecDelay(u32),
    UsecDelay(u32),
    AssertCtxLockHeld,
    /// Asks which PHY family an identifier belongs to.
    PhyTypeFromId(u32),
    /// Calls a function with the software state as it then is.
    Call(Call, Box<Hw>),
}

impl Action {
    /// Whether the operation asks for an answer.
    pub open spec fn asks(self) -> bool {
        match self {
            Action::ReadRegister(_) => true,
            Action::ReadFlashRegister(_) => true,
            Action::ReadFlashRegister16(_) => true,
            Action::ReadPciConfig(_, _) => true,
            Action::PhyTypeFromId(_) => true,
            Action::Call(_, _) => true,
            _ => false,
        }
    }

    /// Tests whether the operation asks for an answer.
    pub fn needs_answer(&self) -> (res: bool)
        ensures
            res == self.asks(),
    {
        match self {
            Action::ReadRegister(_) => true,
            Action::ReadFlashRegister(_) => true,
            Action::ReadFlashRegister16(_) => true,
            Action::ReadPciConfig(_, _) => true,
            Action::PhyTypeFromId(_) => true,
            Action::Call(_, _) => true,
            _ => false,
        }
    }
}

/// How many of the operations ask for an answer.
pub open spec fn questions(trace: Seq<Action>) -> int
    decreases trace.len(),
{
    if trace.len() == 0 {
        0
    } else {
        questions(trace.drop_last()) + if trace.last().asks() {
            1int
        } else {
            0
        }
    }
}

proof fn lemma_questions_push(trace: Seq<Action>, action: Action)
    ensures
        questions(trace.push(action)) == questions(trace) + if action.asks() {
            1int
        } else {
            0
        },
{
    assert(trace.push(action).drop_last() =~= trace);
}

/// What a called function returns: its result, the values of its result
/// parameters, and the software state as it left it.
#[derive(Clone, Copy, Debug, PartialEq)]
pub struct Return {
    pub result: AdResult,
    pub value: u32,
    pub extra: u32,
    pub hw: Hw,
}

/// The answer to an operation that asks for one.
#[derive(Clone, Debug, PartialEq)]
pub enum Reply {
    /// What a register or a configuration word holds.
    Value(u32),
    PhyType(PhyType),
    Returned(Box<Return>),
}

/// What a called function reports, without the software state.
#[derive(Clone, Copy, Debug, PartialEq)]
pub struct Answer {
    pub result: AdResult,
    pub value: u32,
    pub extra: u32,
}

/// A run of the driver: the software state, the answers given, how many of
/// them are used, the operations recorded, and whether the run has stalled.
pub struct Run {
    pub hw: Hw,
    pub replies: Seq<Reply>,
    pub used: nat,
    pub trace: Seq<Action>,
    pub stalled: bool,
}

impl Run {
    /// The answer that comes next, if there is one.
    pub open spec fn next(self) -> Option<Reply> {
        if self.used < self.replies.len() {
            Some(self.replies[self.used as int])
        } else {
            None
        }
    }

    /// Records an operation that needs no answer.
    #[verifier::opaque]
    pub open spec fn act(self, action: Action) -> Run {
        if self.stalled {
            self
        } else {
            Run { trace: self.trace.push(action), ..self }
        }
    }

    /// Records an operation and uses up its answer.
    pub open spec fn answered(self, action: Action) -> Run {
        Run { trace: self.trace.push(action), used: self.used + 1, ..self }
    }

    /// Records an operation that is left without an answer.
    pub open spec fn stall(self, action: Action) -> Run {
        Run { trace: self.trace.push(action), stalled: true, ..self }
    }

    /// Asks for a number; 0 where the run stalls.
    #[verifier::opaque]
    pub open spec fn ask(self, action: Action) -> (Run, u32) {
        if self.stalled {
            (self, 0)
        } else {
            match self.next() {
                Some(Reply::Value(v)) => (self.answered(action), v),
                _ => (self.stall(action), 0),
            }
        }
    }

    /// Asks for a PHY family; unknown where the run stalls.
    #[verifier::opaque]
    pub open spec fn phy_type_from_id(self, id: u32) -> (Run, PhyType) {
        let action = Action::PhyTypeFromId(id);
        if self.stalled {
            (self, PhyType::Type_unknown)
        } else {
            match self.next() {
                Some(Reply::PhyType(t)) => (self.answered(action), t),
                _ => (self.stall(action), PhyType::Type_unknown),
            }
        }
    }

    /// Calls a function, which may change the software state within its
    /// invariant; success with zeros where the run stalls.
    #[verifier::opaque]
    pub open spec fn call(self, call: Call) -> (Run, Answer) {
        let action = Action::Call(call, Box::new(self.hw));
        let nothing = Answer { result: Ok(()), value: 0, extra: 0 };
        if self.stalled {
            (self, nothing)
        } else {
            match self.next() {
                Some(Reply::Returned(r)) if r.hw.wf() => (
                    Run { hw: r.hw, ..self.answered(action) },
                    Answer { result: r.result, value: r.value, extra: r.extra },
                ),
                _ => (self.stall(action), nothing),
            }
        }
    }

    pub open spec fn read_register(self, reg: u32) -> (Run, u32) {
        self.ask(Action::ReadRegister(reg))
    }

    pub open spec fn write_register(self, reg: u32, value: u32) -> Run {
        self.act(Action::WriteRegister(reg, value))
    }

    pub open spec fn write_flush(self) -> Run {
        self.act(Action::WriteFlush)
    }

    pub open spec fn set_register_bit(self, reg: u32, mask: u32) -> Run {
        self.act(Action::SetRegisterBit(reg, mask))
    }

    pub open spec fn clear_register_bit(self, reg: u32, mask: u32) -> Run {
        self.act(Action::ClearRegisterBit(reg, mask))
    }

    /// Reads a register, clears the bits of `clear`, sets those of `set`, and
    /// writes it back.
    pub open spec fn modify_register(self, reg: u32, clear: u32, set: u32) -> Run {
        let (s, v) = self.read_register(reg);
        s.write_register(reg, (v & !clear) | set)
    }

    pub open spec fn read_flash_register(self, reg: u32) -> (Run, u32) {
        self.ask(Action::ReadFlashRegister(reg))
    }

    pub open spec fn read_flash_register16(self, reg: u32) -> (Run, u16) {
        let (s, v) = self.ask(Action::ReadFlashRegister16(reg));
        (s, v as u16)
    }

    pub open spec fn write_flash_register(self, reg: u32, value: u32) -> Run {
        self.act(Action::WriteFlashRegister(reg, value))
    }

    pub open spec fn write_flash_register16(self, reg: u32, value: u16) -> Run {
        self.act(Action::WriteFlashRegister16(reg, value))
    }

    pub open spec fn pci_read_config(self, offset: u32, width: u32) -> (Run, u32) {
        self.ask(Action::ReadPciConfig(offset, width))
    }

    pub open spec fn msec_delay(self, n: u32) -> Run {
        self.act(Action::MsecDelay(n))
    }

    pub open spec fn usec_delay(self, n: u32) -> Run {
        self.act(Action::UsecDelay(n))
    }

    /// A call that reports nothing but its result.
    pub open spec fn invoke(self, call: Call) -> (Run, AdResult) {
        let (s, a) = self.call(call);
        (s, a.result)
    }

    /// A call with one 16-bit result parameter.
    pub open spec fn fetch(self, call: Call) -> (Run, AdResult, u16) {
        let (s, a) = self.call(call);
        (s, a.result, a.value as u16)
    }

    pub open spec fn phy_acquire(self) -> (Run, AdResult) {
        self.invoke(Call::PhyAcquire)
    }

    pub open spec fn phy_release(self) -> (Run, AdResult) {
        self.invoke(Call::PhyRelease)
    }

    /// Releases the PHY and ends with the error of the release if that fails,
    /// else with `res`.
    pub open spec fn release_and(self, res: AdResult) -> (Run, AdResult) {
        let (s, r) = self.phy_release();
        (s, if r is Err { r } else { res })
    }

    pub open spec fn phy_read_reg(self, reg: u32, data: u16) -> (Run, AdResult, u16) {
        self.fetch(Call::PhyReadReg(reg, data))
    }

    pub open spec fn phy_write_reg(self, reg: u32, data: u16) -> (Run, AdResult) {
        self.invoke(Call::PhyWriteReg(reg, data))
    }

    pub open spec fn phy_read_reg_locked(self, reg: u32, data: u16) -> (Run, AdResult, u16) {
        self.fetch(Call::PhyReadRegLocked(reg, data))
    }

    pub open spec fn phy_write_reg_locked(self, reg: u32, data: u16) -> (Run, AdResult) {
        self.invoke(Call::PhyWriteRegLocked(reg, data))
    }

    pub open spec fn nvm_read_word(self, offset: u16, data: u16) -> (Run, AdResult, u16) {
        self.fetch(Call::NvmReadWord(offset, data))
    }

    /// Asks whether the firmware blocks a reset of the PHY.
    pub open spec fn check_reset_block(self) -> (Run, Result<bool, Error>) {
        let (s, a) = self.call(Call::CheckResetBlock);
        (
            s,
            match a.result {
                Ok(_) => Ok(a.value != 0),
                Err(e) => Err(e),
            },
        )
    }

    /// Takes a path that the driver does not implement; how that ends is
    /// for the rest of the driver to say.
    pub open spec fn incomplete(self, feature: Feature) -> (Run, AdResult) {
        self.invoke(Call::Incomplete(feature))
    }

    /// Whether the MAC family is `mac_type` or a later one.
    pub open spec fn since(self, mac_type: MacType) -> bool {
        self.hw.mac.mac_type.since(mac_type)
    }

    /// Whether the MAC family is `mac_type`.
    pub open spec fn is_mac(self, mac_type: MacType) -> bool {
        self.hw.mac.mac_type == mac_type
    }

    /// The run with another software state.
    pub open spec fn with_hw(self, hw: Hw) -> Run {
        Run { hw, ..self }
    }

    /// The number of answers left.
    pub open spec fn left(self) -> int {
        self.replies.len() - self.used
    }

    /// Whether the last thing done was to release the PHY.
    pub open spec fn just_released(self) -> bool {
        self.trace.len() > 0 && (self.trace.last() matches Action::Call(call, _) && call
            == Call::PhyRelease)
    }

    /// How many operations wait for an answer: one if the run has stalled.
    pub open spec fn waiting(self) -> int {
        if self.stalled {
            1
        } else {
            0
        }
    }

    /// Whether the device is of family `mac_type` and has identifier
    /// `device_id`, and every function that is called says so too.
    #[verifier::opaque]
    pub open spec fn device_is(self, mac_type: MacType, device_id: u16) -> bool {
        &&& self.hw.mac.mac_type == mac_type
        &&& self.hw.device_id == device_id
        &&& forall|i: int|
            0 <= i < self.replies.len() ==> (#[trigger] self.replies[i] matches Reply::Returned(r)
                ==> r.hw.mac.mac_type == mac_type && r.hw.device_id == device_id)
    }

    /// Whether this run goes on from `earlier`: it has recorded what that one
    /// had and perhaps more; an answer has been used for each operation since
    /// that asks for one, except for the last operation if the run has stalled
    /// since; if the earlier run had stalled nothing was done since; and the
    /// device is the same.
    #[verifier::opaque]
    pub open spec fn continues(self, earlier: Run) -> bool {
        &&& self.replies == earlier.replies
        &&& earlier.used <= self.used
        &&& earlier.used <= earlier.replies.len() ==> self.used <= self.replies.len()
        &&& earlier.trace.is_prefix_of(self.trace)
        &&& questions(self.trace) - questions(earlier.trace) == (self.used + self.waiting()) - (
        earlier.used + earlier.waiting())
        &&& self.stalled && !earlier.stalled ==> {
            &&& self.trace.len() > earlier.trace.len()
            &&& self.trace.last().asks()
        }
        &&& earlier.stalled ==> {
            &&& self.stalled
            &&& self.trace == earlier.trace
            &&& self.used == earlier.used
        }
        &&& forall|mac_type: MacType, device_id: u16| #[trigger]
            earlier.device_is(mac_type, device_id) ==> self.device_is(mac_type, device_id)
    }

    pub broadcast proof fn lemma_act_continues(self, action: Action)
        requires
            !action.asks(),
        ensures
            (#[trigger] self.act(action)).continues(self),
            self.act(action).hw == self.hw,
    {
        reveal(Run::continues);
        reveal(Run::device_is);
        reveal(Run::act);
        lemma_questions_push(self.trace, action);
    }

    pub broadcast proof fn lemma_ask_continues(self, action: Action)
        requires
            action.asks(),
        ensures
            (#[trigger] self.ask(action)).0.continues(self),
            self.ask(action).0.hw == self.hw,
            self.ask(action).1 != 0 ==> {
                &&& !self.ask(action).0.stalled
                &&& self.ask(action).0.used == self.used + 1
                &&& self.used < self.replies.len()
            },
    {
        reveal(Run::continues);
        reveal(Run::device_is);
        reveal(Run::ask);
        lemma_questions_push(self.trace, action);
    }

    pub broadcast proof fn lemma_call_continues(self, call: Call)
        ensures
            (#[trigger] self.call(call)).0.continues(self),
    {
        reveal(Run::continues);
        reveal(Run::device_is);
        reveal(Run::call);
        lemma_questions_push(self.trace, Action::Call(call, Box::new(self.hw)));
    }

    pub broadcast proof fn lemma_phy_type_continues(self, id: u32)
        ensures
            (#[trigger] self.phy_type_from_id(id)).0.continues(self),
            self.phy_type_from_id(id).0.hw == self.hw,
    {
        reveal(Run::continues);
        reveal(Run::device_is);
        reveal(Run::phy_type_from_id);
        lemma_questions_push(self.trace, Action::PhyTypeFromId(id));
    }

    /// What was recorded and answered before is still there.
    pub proof fn lemma_kept(self, earlier: Run)
        requires
            self.continues(earlier),
        ensures
            self.replies == earlier.replies,
            earlier.used <= self.used,
            earlier.trace.len() <= self.trace.len(),
            forall|i: int|
                0 <= i < earlier.trace.len() ==> #[trigger] self.trace[i] == earlier.trace[i],
            earlier.stalled ==> self.stalled && self.trace == earlier.trace,
            questions(self.trace) - questions(earlier.trace) == (self.used + self.waiting()) - (
            earlier.used + earlier.waiting()),
            self.stalled && !earlier.stalled ==> self.trace.last().asks(),
    {
        reveal(Run::continues);
        let kept = self.trace.take(earlier.trace.len() as int);
        assert(kept == earlier.trace);
        assert forall|i: int| 0 <= i < earlier.trace.len() implies #[trigger] self.trace[i]
            == earlier.trace[i] by {
            assert(kept[i] == earlier.trace[i]);
        }
    }

    /// The same relation, as it is built up step by step from a start.
    #[verifier::opaque]
    pub open spec fn reached_from(self, start: Run) -> bool {
        self.continues(start)
    }

    pub proof fn lemma_start(self)
        ensures
            self.reached_from(self),
    {
        reveal(Run::reached_from);
        reveal(Run::continues);
    }

    pub broadcast proof fn lemma_reached_step(start: Run, a: Run, b: Run)
        requires
            #[trigger] a.reached_from(start),
            #[trigger] b.continues(a),
        ensures
            b.reached_from(start),
    {
        reveal(Run::reached_from);
        reveal(Run::continues);
        assert(start.trace =~= b.trace.take(start.trace.len() as int)) by {
            assert(a.trace =~= b.trace.take(a.trace.len() as int));
            assert(start.trace =~= a.trace.take(start.trace.len() as int));
        }
    }

    pub broadcast proof fn lemma_reached_continues(start: Run, a: Run)
        requires
            #[trigger] a.reached_from(start),
        ensures
            a.continues(start),
    {
        reveal(Run::reached_from);
    }
}

pub broadcast group group_continues {
    Run::lemma_act_continues,
    Run::lemma_ask_continues,
    Run::lemma_call_continues,
    Run::lemma_phy_type_continues,
    Run::lemma_reached_step,
    Run::lemma_reached_continues,
}

/// The answers given and the operations recorded.
#[derive(Debug)]
pub struct Io {
    pub replies: Vec<Reply>,
    pub used: usize,
    pub trace: Vec<Action>,
    pub stalled: bool,
}

/// The driver's software state and its run of operations.
#[derive(Debug)]
pub struct Adapter {
    pub hw: Hw,
    pub io: Io,
}

impl View for Adapter {
    type V = Run;

    open spec fn view(&self) -> Run {
        Run {
            hw: self.hw,
            replies: self.io.replies@,
            used: self.io.used as nat,
            trace: self.io.trace@,
            stalled: self.io.stalled,
        }
    }
}

impl Adapter {
    pub open spec fn wf(&self) -> bool {
        &&& self.hw.wf()
        &&& self.io.used <= self.io.replies.len()
    }

    /// A run that begins on `hw` with the answers given so far.
    pub fn new(hw: Hw, replies: Vec<Reply>) -> (adapter: Adapter)
        requires
            hw.wf(),
        ensures
            adapter.wf(),
            adapter@ == (Run {
                hw,
                replies: replies@,
                used: 0,
                trace: Seq::empty(),
                stalled: false,
            }),
    {
        Adapter { hw, io: Io { replies, used: 0, trace: Vec::new(), stalled: false } }
    }

    /// Whether the run waits for an answer; if so, the last operation
    /// recorded is the one that asks for it.
    pub fn is_stalled(&self) -> (res: bool)
        ensures
            res == self@.stalled,
    {
        self.io.stalled
    }

    fn act(&mut self, action: Action)
        requires
            old(self).wf(),
        ensures
            final(self).wf(),
            final(self)@ == old(self)@.act(action),
    {
        reveal(Run::act);
        if !self.io.stalled {
            self.io.trace.push(action);
        }
    }

    fn ask(&mut self, action: Action) -> (res: u32)
        requires
            old(self).wf(),
        ensures
            final(self).wf(),
            (final(self)@, res) == old(self)@.ask(action),
    {
        reveal(Run::ask);
        if self.io.stalled {
            return 0;
        }
        self.io.trace.push(action);
        if self.io.used < self.io.replies.len() {
            if let Reply::Value(v) = &self.io.replies[self.io.used] {
                let v: u32 = *v;
                self.io.used = self.io.used + 1;
                return v;
            }
        }
        self.io.stalled = true;
        0
    }

    /// Asks which PHY family an identifier belongs to.
    pub fn phy_type_from_id(&mut self, id: u32) -> (res: PhyType)
        requires
            old(self).wf(),
        ensures
            final(self).wf(),
            (final(self)@, res) == old(self)@.phy_type_from_id(id),
    {
        reveal(Run::phy_type_from_id);
        if self.io.stalled {
            return PhyType::Type_unknown;
        }
        self.io.trace.push(Action::PhyTypeFromId(id));
        if self.io.used < self.io.replies.len() {
            if let Reply::PhyType(t) = &self.io.replies[self.io.used] {
                let t: PhyType = *t;
                self.io.used = self.io.used + 1;
                return t;
            }
        }
        self.io.stalled = true;
        PhyType::Type_unknown
    }

    /// Calls a function of the rest of the driver.
    pub fn call(&mut self, call: Call) -> (res: Answer)
        requires
            old(self).wf(),
        ensures
            final(self).wf(),
            (final(self)@, res) == old(self)@.call(call),
    {
        reveal(Run::call);
        if self.io.stalled {
            return Answer { result: Ok(()), value: 0, extra: 0 };
        }
        self.io.trace.push(Action::Call(call, Box::new(self.hw)));
        if self.io.used < self.io.replies.len() {
            if let Reply::Returned(r) = &self.io.replies[self.io.used] {
                if r.hw.is_wf() {
                    let answer = Answer { result: r.result, value: r.value, extra: r.extra };
                    let hw = r.hw;
                    self.hw = hw;
                    self.io.used = self.io.used + 1;
                    return answer;
                }
            }
        }
        self.io.stalled = true;
        Answer { result: Ok(()), value: 0, extra: 0 }
    }

    /// Reads a MAC register.
    pub fn read_register(&mut self, reg: u32) -> (res: u32)
        requires
            old(self).wf(),
        ensures
            final(self).wf(),
            (final(self)@, res) == old(self)@.read_register(reg),
    {
        self.ask(Action::ReadRegister(reg))
    }

    /// Writes a MAC register.
    pub fn write_register(&mut self, reg: u32, value: u32)
        requires
            old(self).wf(),
        ensures
            final(self).wf(),
            final(self)@ == old(self)@.write_register(reg, value),
    {
        self.act(Action::WriteRegister(reg, value));
    }

    /// Writes one register of an array of MAC registers.
    pub fn write_register_array(&mut self, reg: u32, index: u32, value: u32)
        requires
            old(self).wf(),
        ensures
            final(self).wf(),
            final(self)@ == old(self)@.act(Action::WriteRegisterArray(reg, index, value)),
    {
        self.act(Action::WriteRegisterArray(reg, index, value));
    }

    /// Makes the register writes so far reach the device.
    pub fn write_flush(&mut self)
        requires
            old(self).wf(),
        ensures
            final(self).wf(),
            final(self)@ == old(self)@.write_flush(),
    {
        self.act(Action::WriteFlush);
    }

    /// Sets bits of a MAC register.
    pub fn set_register_bit(&mut self, reg: u32, mask: u32)
        requires
            old(self).wf(),
        ensures
            final(self).wf(),
            final(self)@ == old(self)@.set_register_bit(reg, mask),
    {
        self.act(Action::SetRegisterBit(reg, mask));
    }

    /// Clears bits of a MAC register.
    pub fn clear_register_bit(&mut self, reg: u32, mask: u32)
        requires
            old(self).wf(),
        ensures
            final(self).wf(),
            final(self)@ == old(self)@.clear_register_bit(reg, mask),
    {
        self.act(Action::ClearRegisterBit(reg, mask));
    }

    /// Reads a MAC register, clears and sets bits in it, and writes it back.
    pub fn modify_register(&mut self, reg: u32, clear: u32, set: u32)
        requires
            old(self).wf(),
        ensures
            final(self).wf(),
            final(self)@ == old(self)@.modify_register(reg, clear, set),
    {
        let v = self.read_register(reg);
        self.write_register(reg, (v & !clear) | set);
    }

    /// Reads a 32-bit flash register.
    pub fn read_flash_register(&mut self, reg: u32) -> (res: u32)
        requires
            old(self).wf(),
        ensures
            final(self).wf(),
            (final(self)@, res) == old(self)@.read_flash_register(reg),
    {
        self.ask(Action::ReadFlashRegister(reg))
    }

    /// Reads a 16-bit flash register.
    pub fn read_flash_register16(&mut self, reg: u32) -> (res: u16)
        requires
            old(self).wf(),
        ensures
            final(self).wf(),
            (final(self)@, res) == old(self)@.read_flash_register16(reg),
    {
        self.ask(Action::ReadFlashRegister16(reg)) as u16
    }

    /// Writes a 32-bit flash register.
    pub fn write_flash_register(&mut self, reg: u32, value: u32)
        requires
            old(self).wf(),
        ensures
            final(self).wf(),
            final(self)@ == old(self)@.write_flash_register(reg, value),
    {
        self.act(Action::WriteFlashRegister(reg, value));
    }

    /// Writes a 16-bit flash register.
    pub fn write_flash_register16(&mut self, reg: u32, value: u16)
        requires
            old(self).wf(),
        ensures
            final(self).wf(),
            final(self)@ == old(self)@.write_flash_register16(reg, value),
    {
        self.act(Action::WriteFlashRegister16(reg, value));
    }

    /// Reads `width` bytes of the PCI configuration space.
    pub fn pci_read_config(&mut self, offset: u32, width: u32) -> (res: u32)
        requires
            old(self).wf(),
        ensures
            final(self).wf(),
            (final(self)@, res) == old(self)@.pci_read_config(offset, width),
    {
        self.ask(Action::ReadPciConfig(offset, width))
    }

    /// Waits `n` milliseconds.
    pub fn msec_delay(&mut self, n: u32)
        requires
            old(self).wf(),
        ensures
            final(self).wf(),
            final(self)@ == old(self)@.msec_delay(n),
    {
        self.act(Action::MsecDelay(n));
    }

    /// Waits `n` microseconds.
    pub fn usec_delay(&mut self, n: u32)
        requires
            old(self).wf(),
        ensures
            final(self).wf(),
            final(self)@ == old(self)@.usec_delay(n),
    {
        self.act(Action::UsecDelay(n));
    }

    /// Asserts that the context lock is held.
    pub fn assert_ctx_lock_held(&mut self)
        requires
            old(self).wf(),
        ensures
            final(self).wf(),
            final(self)@ == old(self)@.act(Action::AssertCtxLockHeld),
    {
        self.act(Action::AssertCtxLockHeld);
    }

    /// Calls a function that reports nothing but its result.
    pub fn invoke(&mut self, call: Call) -> (res: AdResult)
        requires
            old(self).wf(),
        ensures
            final(self).wf(),
            (final(self)@, res) == old(self)@.invoke(call),
    {
        let a = self.call(call);
        a.result
    }

    /// Calls a function with one 16-bit result parameter.
    pub fn fetch(&mut self, call: Call, data: &mut u16) -> (res: AdResult)
        requires
            old(self).wf(),
        ensures
            final(self).wf(),
            (final(self)@, res, *final(data)) == old(self)@.fetch(call),
    {
        let a = self.call(call);
        *data = a.value as u16;
        a.result
    }

    /// Takes the semaphore that guards the PHY.
    pub fn phy_acquire(&mut self) -> (res: AdResult)
        requires
            old(self).wf(),
        ensures
            final(self).wf(),
            (final(self)@, res) == old(self)@.phy_acquire(),
    {
        self.invoke(Call::PhyAcquire)
    }

    /// Gives the semaphore that guards the PHY back.
    pub fn phy_release(&mut self) -> (res: AdResult)
        requires
            old(self).wf(),
        ensures
            final(self).wf(),
            (final(self)@, res) == old(self)@.phy_release(),
    {
        self.invoke(Call::PhyRelease)
    }

    /// Releases the PHY; ends with the error of the release if that fails, else with `res`.
    pub fn release_and(&mut self, res: AdResult) -> (out: AdResult)
        requires
            old(self).wf(),
        ensures
            final(self).wf(),
            (final(self)@, out) == old(self)@.release_and(res),
    {
        let r = self.phy_release();
        if r.is_err() {
            r
        } else {
            res
        }
    }

    /// Reads a PHY register.
    pub fn phy_read_reg(&mut self, reg: u32, data: &mut u16) -> (res: AdResult)
        requires
            old(self).wf(),
        ensures
            final(self).wf(),
            (final(self)@, res, *final(data)) == old(self)@.phy_read_reg(reg, *old(data)),
    {
        let call = Call::PhyReadReg(reg, *data);
        self.fetch(call, data)
    }

    /// Reads a PHY register with the semaphore held.
    pub fn phy_read_reg_locked(&mut self, reg: u32, data: &mut u16) -> (res: AdResult)
        requires
            old(self).wf(),
        ensures
            final(self).wf(),
            (final(self)@, res, *final(data)) == old(self)@.phy_read_reg_locked(reg, *old(data)),
    {
        let call = Call::PhyReadRegLocked(reg, *data);
        self.fetch(call, data)
    }

    /// Writes a PHY register.
    pub fn phy_write_reg(&mut self, reg: u32, data: u16) -> (res: AdResult)
        requires
            old(self).wf(),
        ensures
            final(self).wf(),
            (final(self)@, res) == old(self)@.phy_write_reg(reg, data),
    {
        self.invoke(Call::PhyWriteReg(reg, data))
    }

    /// Writes a PHY register with the semaphore held.
    pub fn phy_write_reg_locked(&mut self, reg: u32, data: u16) -> (res: AdResult)
        requires
            old(self).wf(),
        ensures
            final(self).wf(),
            (final(self)@, res) == old(self)@.phy_write_reg_locked(reg, data),
    {
        self.invoke(Call::PhyWriteRegLocked(reg, data))
    }

    /// Reads one word of the NVM.
    pub fn nvm_read_word(&mut self, offset: u16, data: &mut u16) -> (res: AdResult)
        requires
            old(self).wf(),
        ensures
            final(self).wf(),
            (final(self)@, res, *final(data)) == old(self)@.nvm_read_word(offset, *old(data)),
    {
        let call = Call::NvmReadWord(offset, *data);
        self.fetch(call, data)
    }

    /// Asks whether the firmware blocks a reset of the PHY.
    pub fn check_reset_block(&mut self) -> (res: Result<bool, Error>)
        requires
            old(self).wf(),
        ensures
            final(self).wf(),
            (final(self)@, res) == old(self)@.check_reset_block(),
    {
        let a = self.call(Call::CheckResetBlock);
        match a.result {
            Ok(_) => Ok(a.value != 0),
            Err(e) => Err(e),
        }
    }

    /// Takes a path that the driver does not implement.
    pub fn incomplete(&mut self, feature: Feature) -> (res: AdResult)
        requires
            old(self).wf(),
        ensures
            final(self).wf(),
            (final(self)@, res) == old(self)@.incomplete(feature),
    {
        self.invoke(Call::Incomplete(feature))
    }

    /// Tests the MAC family.
    pub fn is_mac(&self, mac_type: MacType) -> (res: bool)
        ensures
            res == (self@.hw.mac.mac_type == mac_type),
    {
        self.hw.mac.mac_type == mac_type
    }

    /// Tests whether the MAC family is `mac_type` or a later one.
    pub fn mac_since(&self, mac_type: MacType) -> (res: bool)
        ensures
            res == self@.since(mac_type),
    {
        self.hw.mac.mac_type.at_least(mac_type)
    }
}

} // verus!
