//! What is to be found in the record of a run: which operations were asked for
//! from some place on, and what was answered to them.

use vstd::prelude::*;
use crate::hw::{Func, MacType};
use crate::io::{questions, Action, Call, Reply, Run};

verus! {

/// A way to reach registers of the PHY or of the interface to it.
pub enum Port {
    /// By the functions of the adapter's table.
    Plain,
    /// By the functions of the adapter's table, with the semaphore held.
    Locked,
    /// By the functions for HV PHYs, with the semaphore held.
    Hv,
    /// The Kumeran interface.
    Kmrn,
    /// The Kumeran interface, with the semaphore held.
    KmrnLocked,
    /// By one function for reading and one for writing.
    Op(Func, Func),
}

impl Port {
    /// The call that reads a register, where `before` is what the result
    /// parameter holds before.
    pub open spec fn read(self, reg: u32, before: u16) -> Call {
        match self {
            Port::Plain => Call::PhyReadReg(reg, before),
            Port::Locked => Call::PhyReadRegLocked(reg, before),
            Port::Hv => Call::ReadPhyRegHvLocked(reg, before),
            Port::Kmrn => Call::ReadKmrnReg(reg, before),
            Port::KmrnLocked => Call::ReadKmrnRegLocked(reg, before),
            Port::Op(read, _) => Call::OpReadReg(read, reg, before),
        }
    }

    /// The call that writes a register.
    pub open spec fn write(self, reg: u32, value: u16) -> Call {
        match self {
            Port::Plain => Call::PhyWriteReg(reg, value),
            Port::Locked => Call::PhyWriteRegLocked(reg, value),
            Port::Hv => Call::WritePhyRegHvLocked(reg, value),
            Port::Kmrn => Call::WriteKmrnReg(reg, value),
            Port::KmrnLocked => Call::WriteKmrnRegLocked(reg, value),
            Port::Op(_, write) => Call::OpWriteReg(write, reg, value),
        }
    }
}

impl Run {
    /// The number of operations recorded.
    pub open spec fn len(self) -> int {
        self.trace.len() as int
    }

    /// The answer to the operation at place `i`.
    #[verifier::opaque]
    pub open spec fn reply_to(self, i: int) -> Reply {
        self.replies[self.used + self.waiting() - questions(self.trace) + questions(
            self.trace.take(i),
        )]
    }

    /// Whether the operation at place `i` is a call of `call`.
    pub open spec fn calls_at(self, i: int, call: Call) -> bool {
        self.trace[i] matches Action::Call(c, _) && c == call
    }

    /// Whether an operation was asked for, at place `from` or later.
    #[verifier::opaque]
    pub open spec fn did(self, from: int, action: Action) -> bool {
        exists|i: int| from <= i < self.len() && #[trigger] self.trace[i] == action
    }

    /// Whether a function was called, at place `from` or later.
    #[verifier::opaque]
    pub open spec fn called(self, from: int, call: Call) -> bool {
        exists|i: int| from <= i < self.len() && #[trigger] self.calls_at(i, call)
    }

    /// Whether a register was read and gave `v`, at place `from` or later.
    #[verifier::opaque]
    pub open spec fn saw(self, from: int, reg: u32, v: u32) -> bool {
        exists|i: int|
            {
                &&& from <= i < self.len()
                &&& self.trace[i] == Action::ReadRegister(reg)
                &&& #[trigger] self.reply_to(i) == Reply::Value(v)
            }
    }

    /// Whether a function that was called failed, at place `from` or later.
    #[verifier::opaque]
    pub open spec fn failed(self, from: int, call: Call) -> bool {
        exists|i: int|
            {
                &&& from <= i < self.len()
                &&& #[trigger] self.calls_at(i, call)
                &&& self.reply_to(i) matches Reply::Returned(r)
                &&& r.result is Err
            }
    }

    /// Whether a register was read and the next thing done was to write it
    /// back with the bits of `clear` cleared and then those of `set` set, at
    /// place `from` or later.
    #[verifier::opaque]
    pub open spec fn rewrote(self, from: int, reg: u32, clear: u32, set: u32) -> bool {
        exists|i: int|
            {
                &&& from <= i < self.len() - 1
                &&& self.trace[i] == Action::ReadRegister(reg)
                &&& #[trigger] self.reply_to(i) matches Reply::Value(v)
                &&& self.trace[i + 1] == Action::WriteRegister(reg, (v & !clear) | set)
            }
    }

    /// The same of a register that is reached through `port`.
    #[verifier::opaque]
    pub open spec fn rewrote_by(self, from: int, port: Port, reg: u32, clear: u16, set: u16) -> bool {
        exists|i: int, before: u16|
            {
                &&& from <= i < self.len() - 1
                &&& #[trigger] self.calls_at(i, port.read(reg, before))
                &&& self.reply_to(i) matches Reply::Returned(r)
                &&& self.calls_at(i + 1, port.write(reg, ((r.value as u16) & !clear) | set))
            }
    }

    /// Whether a register of the extended management interface was written, at
    /// place `from` or later: its address first, and if that succeeds its
    /// value next.
    #[verifier::opaque]
    pub open spec fn wrote_emi(self, from: int, address: u16, value: u16) -> bool {
        exists|i: int|
            {
                &&& from <= i < self.len()
                &&& #[trigger] self.calls_at(i, Call::PhyWriteRegLocked(0x10, address))
                &&& self.reply_to(i) matches Reply::Returned(r)
                &&& r.result is Ok ==> i + 1 < self.len() && self.calls_at(
                    i + 1,
                    Call::PhyWriteRegLocked(0x11, value),
                )
            }
    }

    /// What is answered to an operation does not change as a run goes on.
    pub proof fn lemma_reply_kept(self, earlier: Run, i: int)
        requires
            self.continues(earlier),
            0 <= i <= earlier.len(),
        ensures
            self.reply_to(i) == earlier.reply_to(i),
    {
        reveal(Run::reply_to);
        self.lemma_kept(earlier);
        assert(self.trace.take(i) =~= earlier.trace.take(i));
    }

    pub broadcast proof fn lemma_device_kept(
        later: Run,
        earlier: Run,
        mac_type: MacType,
        device_id: u16,
    )
        requires
            #[trigger] later.continues(earlier),
            #[trigger] earlier.device_is(mac_type, device_id),
        ensures
            later.device_is(mac_type, device_id),
    {
        reveal(Run::continues);
    }

    pub broadcast proof fn lemma_device_known(self, mac_type: MacType, device_id: u16)
        requires
            #[trigger] self.device_is(mac_type, device_id),
        ensures
            self.hw.mac.mac_type == mac_type,
            self.hw.device_id == device_id,
    {
        reveal(Run::device_is);
    }

    pub broadcast proof fn lemma_act_did(self, start: Run, action: Action)
        requires
            #[trigger] self.reached_from(start),
            !self.stalled,
        ensures
            (#[trigger] self.act(action)).did(start.len(), action),
    {
        reveal(Run::did);
        reveal(Run::act);
        reveal(Run::reached_from);
        self.lemma_kept(start);
        assert(self.act(action).trace[self.len()] == action);
    }

    pub broadcast proof fn lemma_call_called(self, start: Run, call: Call)
        requires
            #[trigger] self.reached_from(start),
            !self.stalled,
        ensures
            (#[trigger] self.call(call)).0.called(start.len(), call),
    {
        reveal(Run::called);
        reveal(Run::call);
        reveal(Run::reached_from);
        self.lemma_kept(start);
        assert(self.call(call).0.calls_at(self.len(), call));
    }

    pub broadcast proof fn lemma_did_later(earlier: Run, later: Run, from: int, action: Action)
        requires
            #[trigger] earlier.did(from, action),
            #[trigger] later.continues(earlier),
            from >= 0,
        ensures
            later.did(from, action),
    {
        reveal(Run::did);
        later.lemma_kept(earlier);
        let i = choose|i: int| from <= i < earlier.len() && #[trigger] earlier.trace[i] == action;
        assert(later.trace[i] == action);
    }

    pub broadcast proof fn lemma_called_later(earlier: Run, later: Run, from: int, call: Call)
        requires
            #[trigger] earlier.called(from, call),
            #[trigger] later.continues(earlier),
            from >= 0,
        ensures
            later.called(from, call),
    {
        reveal(Run::called);
        later.lemma_kept(earlier);
        let i = choose|i: int| from <= i < earlier.len() && #[trigger] earlier.calls_at(i, call);
        assert(later.trace[i] == earlier.trace[i]);
        assert(later.calls_at(i, call));
    }

    pub broadcast proof fn lemma_rewrote_later(
        earlier: Run,
        later: Run,
        from: int,
        reg: u32,
        clear: u32,
        set: u32,
    )
        requires
            #[trigger] earlier.rewrote(from, reg, clear, set),
            #[trigger] later.continues(earlier),
            from >= 0,
        ensures
            later.rewrote(from, reg, clear, set),
    {
        reveal(Run::rewrote);
        later.lemma_kept(earlier);
        let i = choose|i: int|
            {
                &&& from <= i < earlier.len() - 1
                &&& earlier.trace[i] == Action::ReadRegister(reg)
                &&& #[trigger] earlier.reply_to(i) matches Reply::Value(v)
                &&& earlier.trace[i + 1] == Action::WriteRegister(reg, (v & !clear) | set)
            };
        later.lemma_reply_kept(earlier, i);
        assert(later.trace[i] == earlier.trace[i] && later.trace[i + 1] == earlier.trace[i + 1]);
        assert(later.reply_to(i) is Value);
    }

    pub broadcast proof fn lemma_rewrote_by_later(
        earlier: Run,
        later: Run,
        from: int,
        port: Port,
        reg: u32,
        clear: u16,
        set: u16,
    )
        requires
            #[trigger] earlier.rewrote_by(from, port, reg, clear, set),
            #[trigger] later.continues(earlier),
            from >= 0,
        ensures
            later.rewrote_by(from, port, reg, clear, set),
    {
        reveal(Run::rewrote_by);
        later.lemma_kept(earlier);
        let (i, before) = choose|i: int, before: u16|
            {
                &&& from <= i < earlier.len() - 1
                &&& #[trigger] earlier.calls_at(i, port.read(reg, before))
                &&& earlier.reply_to(i) matches Reply::Returned(r)
                &&& earlier.calls_at(i + 1, port.write(reg, ((r.value as u16) & !clear) | set))
            };
        later.lemma_reply_kept(earlier, i);
        assert(later.trace[i] == earlier.trace[i] && later.trace[i + 1] == earlier.trace[i + 1]);
        assert(later.calls_at(i, port.read(reg, before)));
    }

    pub broadcast proof fn lemma_wrote_emi_later(
        earlier: Run,
        later: Run,
        from: int,
        address: u16,
        value: u16,
    )
        requires
            #[trigger] earlier.wrote_emi(from, address, value),
            #[trigger] later.continues(earlier),
            from >= 0,
        ensures
            later.wrote_emi(from, address, value),
    {
        reveal(Run::wrote_emi);
        later.lemma_kept(earlier);
        let i = choose|i: int|
            {
                &&& from <= i < earlier.len()
                &&& #[trigger] earlier.calls_at(i, Call::PhyWriteRegLocked(0x10, address))
                &&& earlier.reply_to(i) matches Reply::Returned(r)
                &&& r.result is Ok ==> i + 1 < earlier.len() && earlier.calls_at(
                    i + 1,
                    Call::PhyWriteRegLocked(0x11, value),
                )
            };
        later.lemma_reply_kept(earlier, i);
        assert(later.trace[i] == earlier.trace[i]);
        assert(later.calls_at(i, Call::PhyWriteRegLocked(0x10, address)));
        if i + 1 < earlier.len() {
            assert(later.trace[i + 1] == earlier.trace[i + 1]);
        }
    }

    pub broadcast proof fn lemma_wrote_emi_anchored(
        start: Run,
        mid: Run,
        later: Run,
        address: u16,
        value: u16,
    )
        requires
            #[trigger] mid.reached_from(start),
            #[trigger] later.wrote_emi(mid.len(), address, value),
        ensures
            later.wrote_emi(start.len(), address, value),
    {
        reveal(Run::wrote_emi);
        reveal(Run::reached_from);
        mid.lemma_kept(start);
    }

    pub broadcast proof fn lemma_emi_written(self, address: u16, value: u16)
        requires
            !self.write_emi(address, value).0.stalled,
        ensures
            (#[trigger] self.write_emi(address, value)).0.wrote_emi(self.len(), address, value),
    {
        reveal(Run::wrote_emi);
        reveal(Run::access_emi);
        let first = Call::PhyWriteRegLocked(0x10, address);
        let second = Call::PhyWriteRegLocked(0x11, value);
        let (s, a) = self.call(first);
        let w = self.write_emi(address, value).0;
        self.lemma_call_continues(first);
        s.lemma_call_continues(second);
        assert(!s.stalled) by {
            reveal(Run::continues);
        }
        self.lemma_was_called(first);
        if a.result is Ok {
            s.lemma_was_called(second);
            w.lemma_kept(s);
            w.lemma_reply_kept(s, self.len());
            assert(w.trace[self.len()] == s.trace[self.len()]);
        }
        assert(w.calls_at(self.len(), first));
    }

    pub broadcast proof fn lemma_did_anchored(start: Run, mid: Run, later: Run, action: Action)
        requires
            #[trigger] mid.reached_from(start),
            #[trigger] later.did(mid.len(), action),
        ensures
            later.did(start.len(), action),
    {
        reveal(Run::did);
        reveal(Run::reached_from);
        mid.lemma_kept(start);
    }

    pub broadcast proof fn lemma_called_anchored(start: Run, mid: Run, later: Run, call: Call)
        requires
            #[trigger] mid.reached_from(start),
            #[trigger] later.called(mid.len(), call),
        ensures
            later.called(start.len(), call),
    {
        reveal(Run::called);
        reveal(Run::reached_from);
        mid.lemma_kept(start);
    }

    pub broadcast proof fn lemma_rewrote_anchored(
        start: Run,
        mid: Run,
        later: Run,
        reg: u32,
        clear: u32,
        set: u32,
    )
        requires
            #[trigger] mid.reached_from(start),
            #[trigger] later.rewrote(mid.len(), reg, clear, set),
        ensures
            later.rewrote(start.len(), reg, clear, set),
    {
        reveal(Run::rewrote);
        reveal(Run::reached_from);
        mid.lemma_kept(start);
    }

    pub broadcast proof fn lemma_rewrote_by_anchored(
        start: Run,
        mid: Run,
        later: Run,
        port: Port,
        reg: u32,
        clear: u16,
        set: u16,
    )
        requires
            #[trigger] mid.reached_from(start),
            #[trigger] later.rewrote_by(mid.len(), port, reg, clear, set),
        ensures
            later.rewrote_by(start.len(), port, reg, clear, set),
    {
        reveal(Run::rewrote_by);
        reveal(Run::reached_from);
        mid.lemma_kept(start);
    }

    /// What a register gave is the answer to the operation that read it.
    pub proof fn lemma_asked(self, action: Action)
        requires
            !self.ask(action).0.stalled,
            action.asks(),
        ensures
            ({
                let (s, v) = self.ask(action);
                &&& s.len() == self.len() + 1
                &&& s.trace[self.len()] == action
                &&& s.reply_to(self.len()) == Reply::Value(v)
            }),
    {
        reveal(Run::ask);
        reveal(Run::reply_to);
        let (s, v) = self.ask(action);
        assert(s.trace.take(self.len()) =~= self.trace);
        assert(s.trace.drop_last() =~= self.trace);
    }

    /// What a function returned is the answer to the call of it.
    pub proof fn lemma_was_called(self, call: Call)
        requires
            !self.call(call).0.stalled,
        ensures
            ({
                let (s, a) = self.call(call);
                &&& s.len() == self.len() + 1
                &&& s.calls_at(self.len(), call)
                &&& s.reply_to(self.len()) matches Reply::Returned(r)
                &&& r.value == a.value && r.result == a.result && r.extra == a.extra
            }),
    {
        reveal(Run::call);
        reveal(Run::reply_to);
        let (s, _) = self.call(call);
        assert(s.trace.take(self.len()) =~= self.trace);
        assert(s.trace.drop_last() =~= self.trace);
    }

    pub broadcast proof fn lemma_last_call(self, call: Call)
        requires
            !self.call(call).0.stalled,
        ensures
            (#[trigger] self.call(call)).0.calls_at(self.call(call).0.len() - 1, call),
    {
        self.lemma_was_called(call);
    }

    pub broadcast proof fn lemma_saw_later(earlier: Run, later: Run, from: int, reg: u32, v: u32)
        requires
            #[trigger] earlier.saw(from, reg, v),
            #[trigger] later.continues(earlier),
            from >= 0,
        ensures
            later.saw(from, reg, v),
    {
        reveal(Run::saw);
        later.lemma_kept(earlier);
        let i = choose|i: int|
            {
                &&& from <= i < earlier.len()
                &&& earlier.trace[i] == Action::ReadRegister(reg)
                &&& #[trigger] earlier.reply_to(i) == Reply::Value(v)
            };
        later.lemma_reply_kept(earlier, i);
        assert(later.trace[i] == earlier.trace[i]);
        assert(later.reply_to(i) == Reply::Value(v));
    }

    pub broadcast proof fn lemma_saw_anchored(start: Run, mid: Run, later: Run, reg: u32, v: u32)
        requires
            #[trigger] mid.reached_from(start),
            #[trigger] later.saw(mid.len(), reg, v),
        ensures
            later.saw(start.len(), reg, v),
    {
        reveal(Run::saw);
        reveal(Run::reached_from);
        mid.lemma_kept(start);
    }

    pub broadcast proof fn lemma_read_saw(self, start: Run, reg: u32)
        requires
            #[trigger] self.reached_from(start),
            !self.read_register(reg).0.stalled,
        ensures
            (#[trigger] self.read_register(reg)).0.saw(
                start.len(),
                reg,
                self.read_register(reg).1,
            ),
    {
        reveal(Run::saw);
        reveal(Run::reached_from);
        self.lemma_kept(start);
        self.lemma_asked(Action::ReadRegister(reg));
    }

    pub broadcast proof fn lemma_failed_later(earlier: Run, later: Run, from: int, call: Call)
        requires
            #[trigger] earlier.failed(from, call),
            #[trigger] later.continues(earlier),
            from >= 0,
        ensures
            later.failed(from, call),
    {
        reveal(Run::failed);
        later.lemma_kept(earlier);
        let i = choose|i: int|
            {
                &&& from <= i < earlier.len()
                &&& #[trigger] earlier.calls_at(i, call)
                &&& earlier.reply_to(i) matches Reply::Returned(r)
                &&& r.result is Err
            };
        later.lemma_reply_kept(earlier, i);
        assert(later.trace[i] == earlier.trace[i]);
        assert(later.calls_at(i, call));
    }

    pub broadcast proof fn lemma_failed_anchored(start: Run, mid: Run, later: Run, call: Call)
        requires
            #[trigger] mid.reached_from(start),
            #[trigger] later.failed(mid.len(), call),
        ensures
            later.failed(start.len(), call),
    {
        reveal(Run::failed);
        reveal(Run::reached_from);
        mid.lemma_kept(start);
    }

    pub broadcast proof fn lemma_call_failed(self, start: Run, call: Call)
        requires
            #[trigger] self.reached_from(start),
            !self.call(call).0.stalled,
            self.call(call).1.result is Err,
        ensures
            (#[trigger] self.call(call)).0.failed(start.len(), call),
    {
        reveal(Run::failed);
        reveal(Run::reached_from);
        self.lemma_kept(start);
        self.lemma_was_called(call);
    }

    pub broadcast proof fn lemma_modified(self, reg: u32, clear: u32, set: u32)
        requires
            !self.modify_register(reg, clear, set).stalled,
        ensures
            (#[trigger] self.modify_register(reg, clear, set)).rewrote(
                self.len(),
                reg,
                clear,
                set,
            ),
    {
        reveal(Run::rewrote);
        reveal(Run::act);
        let (s, v) = self.read_register(reg);
        let w = self.modify_register(reg, clear, set);
        self.lemma_asked(Action::ReadRegister(reg));
        s.lemma_act_continues(Action::WriteRegister(reg, (v & !clear) | set));
        w.lemma_kept(s);
        w.lemma_reply_kept(s, self.len());
        assert(w.reply_to(self.len()) == Reply::Value(v));
        assert(w.trace[self.len() + 1] == Action::WriteRegister(reg, (v & !clear) | set));
    }

    /// Reading a register through `port` and writing it back.
    pub proof fn lemma_rewritten(
        self,
        port: Port,
        reg: u32,
        before: u16,
        clear: u16,
        set: u16,
    )
        requires
            ({
                let (s, a) = self.call(port.read(reg, before));
                !s.call(port.write(reg, ((a.value as u16) & !clear) | set)).0.stalled
            }),
        ensures
            ({
                let (s, a) = self.call(port.read(reg, before));
                let w = s.call(port.write(reg, ((a.value as u16) & !clear) | set)).0;
                w.rewrote_by(self.len(), port, reg, clear, set)
            }),
    {
        reveal(Run::rewrote_by);
        let (s, a) = self.call(port.read(reg, before));
        let write = port.write(reg, ((a.value as u16) & !clear) | set);
        let w = s.call(write).0;
        self.lemma_call_continues(port.read(reg, before));
        s.lemma_call_continues(write);
        assert(!s.stalled) by {
            reveal(Run::continues);
        }
        self.lemma_was_called(port.read(reg, before));
        s.lemma_was_called(write);
        w.lemma_kept(s);
        w.lemma_reply_kept(s, self.len());
        assert(w.trace[self.len()] == s.trace[self.len()]);
        assert(w.calls_at(self.len(), port.read(reg, before)));
    }
}

pub broadcast group group_events {
    Run::lemma_device_kept,
    Run::lemma_device_known,
    Run::lemma_act_did,
    Run::lemma_call_called,
    Run::lemma_did_later,
    Run::lemma_called_later,
    Run::lemma_rewrote_later,
    Run::lemma_rewrote_by_later,
    Run::lemma_did_anchored,
    Run::lemma_called_anchored,
    Run::lemma_rewrote_anchored,
    Run::lemma_rewrote_by_anchored,
    Run::lemma_modified,
    Run::lemma_last_call,
    Run::lemma_wrote_emi_later,
    Run::lemma_wrote_emi_anchored,
    Run::lemma_emi_written,
    Run::lemma_saw_later,
    Run::lemma_saw_anchored,
    Run::lemma_read_saw,
    Run::lemma_failed_later,
    Run::lemma_failed_anchored,
    Run::lemma_call_failed,
}

} // verus!
