//! Reading the flash, down to the registers of its controller: what a read
//! gives where the controller does what it is told.

use vstd::prelude::*;
use crate::bits::{lemma_cycle_fields, lemma_flash_ctrl};
use crate::error::Error;
use crate::flash::{Attempt, Cycle};
use crate::hw::MacType;
use crate::io::{Action, Reply, Run};
use crate::laws::link::sunrise_point_on;
use crate::resume::group_resumes;

verus! {

/// The place of the last operation before place `i` that writes the address
/// register of the flash controller, or -1.
pub open spec fn cycle_before(trace: Seq<Action>, i: int) -> int
    decreases i,
{
    if i <= 0 {
        -1
    } else if trace[i - 1] matches Action::WriteFlashRegister(reg, _) && reg == 8 {
        i - 1
    } else {
        cycle_before(trace, i - 1)
    }
}

/// How many bytes the cycle at place `j` transfers: the field of the control
/// register, which is written just before the address, less one. The control
/// register is the upper half of the doubleword at the status register.
pub open spec fn cycle_size(trace: Seq<Action>, j: int) -> int {
    match trace[j - 1] {
        Action::WriteFlashRegister16(reg, c) => if reg == 6 {
            ((c >> 8u16) & 3) + 1
        } else {
            0
        },
        Action::WriteFlashRegister(reg, v) => if reg == 4 {
            ((v >> 24u32) & 3) + 1
        } else {
            0
        },
        _ => 0,
    }
}

/// Whether the operation at place `i`, if it looks at the status register,
/// found the controller with a valid descriptor, no cycle in progress, and the
/// last cycle done without an error.
#[verifier::opaque]
pub open spec fn ready_at(end: Run, i: int) -> bool {
    end.trace[i] == Action::ReadFlashRegister16(4) ==> {
        &&& end.reply_to(i) matches Reply::Value(v)
        &&& status_good(v as u16)
    }
}

/// Whether each look at the status register, from place `from` on, found it
/// so.
pub open spec fn controller_ready(end: Run, from: int) -> bool {
    forall|i: int| from <= i < end.len() ==> #[trigger] ready_at(end, i)
}

/// Whether the operation at place `i`, if it reads the data register, gave as
/// many bytes of `flash` as the cycle transfers, at the address of the cycle.
#[verifier::opaque]
pub open spec fn served_at(end: Run, i: int, flash: spec_fn(int) -> u8) -> bool {
    end.trace[i] == Action::ReadFlashRegister(0x10) ==> gave_bytes(
        end.reply_to(i),
        end.trace[cycle_before(end.trace, i)],
        cycle_size(end.trace, cycle_before(end.trace, i)),
        flash,
    )
}

/// Whether an answer holds `size` bytes of `flash` at the address that an
/// operation wrote.
pub open spec fn gave_bytes(
    reply: Reply,
    address: Action,
    size: int,
    flash: spec_fn(int) -> u8,
) -> bool {
    &&& reply is Value
    &&& address is WriteFlashRegister
    &&& holds_bytes(reply->Value_0, address->WriteFlashRegister_1, size, flash)
}

/// Whether the first `size` bytes of a value are those of `flash` at `addr`.
#[verifier::opaque]
pub open spec fn holds_bytes(v: u32, addr: u32, size: int, flash: spec_fn(int) -> u8) -> bool {
    &&& size >= 1 ==> v & 0xFF == flash(addr as int)
    &&& size >= 2 ==> (v >> 8u32) & 0xFF == flash(addr + 1)
    &&& size >= 4 ==> (v >> 16u32) & 0xFF == flash(addr + 2) && (v >> 24u32) & 0xFF == flash(
        addr + 3,
    )
}

/// Whether each read of the data register, from place `from` on, gave what
/// `flash` holds.
pub open spec fn flash_serves(end: Run, from: int, flash: spec_fn(int) -> u8) -> bool {
    forall|i: int| from <= i < end.len() ==> #[trigger] served_at(end, i, flash)
}

/// How many bytes a read cycle transfers.
pub open spec fn read_size(cycle: Cycle) -> int {
    match cycle {
        Cycle::ReadByte => 1,
        Cycle::ReadWord => 2,
        _ => 4,
    }
}

/// Whether a value of the status register has a valid descriptor, no cycle in
/// progress, and the last cycle done without an error.
pub open spec fn status_good(sts: u16) -> bool {
    sts & 0x4000 != 0 && sts & 0x0020 == 0 && sts & 0x0001 != 0 && sts & 0x0002 == 0
}

proof fn lemma_init(run: Run)
    requires
        status_good(run.read_flash_register16(4).1),
    ensures
        ({
            let (s, sts) = run.read_flash_register16(4);
            let cleared = sts | 0x2 | 0x4;
            run.flash_cycle_init() == (
                s.write_flash_status(cleared).write_flash_status(cleared | 0x1),
                Ok::<(), Error>(()),
            )
        }),
{
    reveal(Run::flash_cycle_init);
    lemma_flash_ctrl(0, run.read_flash_register16(4).1);
}

/// The run when a cycle that has been described has been started, and the
/// status looked at once.
pub open spec fn started(run: Run) -> (Run, u16) {
    let up = run.since(MacType::Mac_pch_spt);
    let (s, c) = run.read_flash_ctrl(up);
    s.write_flash_ctrl(up, c | 0x1).read_flash_register16(4)
}

proof fn lemma_cycle(run: Run, timeout: u32)
    requires
        status_good(started(run).1),
    ensures
        run.flash_cycle(timeout) == (started(run).0, Ok::<(), Error>(())),
{
    reveal(Run::flash_cycle);
}

/// Where a cycle that has been described and started stands in the record.
proof fn lemma_places(run: Run, upper: bool, fields: u16, addr: u32)
    requires
        ({
            let s = run.write_flash_ctrl(upper, fields).write_flash_register(8, addr);
            !started(s).0.read_flash_register(0x10).0.stalled
        }),
    ensures
        ({
            let s = run.write_flash_ctrl(upper, fields).write_flash_register(8, addr);
            let end = started(s).0.read_flash_register(0x10).0;
            let j = run.len() + 1;
            &&& end.len() == j + 5
            &&& started(s).0.len() == j + 4
            &&& cycle_before(end.trace, j + 4) == j
            &&& end.trace[j] == Action::WriteFlashRegister(8, addr)
            &&& cycle_size(end.trace, j) == ((fields >> 8u16) & 3) + 1
        }),
{
    reveal(Run::act);
    reveal(Run::ask);
    lemma_flash_ctrl(fields, 0);
    reveal_with_fuel(cycle_before, 6);
}

proof fn lemma_cycle_before_kept(a: Seq<Action>, b: Seq<Action>, i: int)
    requires
        0 <= i <= a.len() <= b.len(),
        forall|k: int| 0 <= k < a.len() ==> a[k] == b[k],
    ensures
        cycle_before(a, i) == cycle_before(b, i),
    decreases i,
{
    if i > 0 {
        lemma_cycle_before_kept(a, b, i - 1);
    }
}

/// A look at the status is good where the controller is ready.
proof fn lemma_status(run: Run, start: Run, later: Run)
    requires
        run.continues(start),
        later.continues(run.read_flash_register16(4).0),
        !later.stalled,
        controller_ready(later, start.len()),
    ensures
        status_good(run.read_flash_register16(4).1),
{
    let s = run.read_flash_register16(4).0;
    run.lemma_kept(start);
    later.lemma_kept(s);
    run.lemma_asked(Action::ReadFlashRegister16(4));
    later.lemma_reply_kept(s, run.len());
    assert(later.trace[run.len()] == s.trace[run.len()]);
    assert(ready_at(later, run.len()));
    reveal(ready_at);
}

proof fn lemma_served(
    later: Run,
    i: int,
    flash: spec_fn(int) -> u8,
    j: int,
    addr: u32,
    v: u32,
)
    requires
        served_at(later, i, flash),
        later.trace[i] == Action::ReadFlashRegister(0x10),
        later.reply_to(i) == Reply::Value(v),
        cycle_before(later.trace, i) == j,
        later.trace[j] == Action::WriteFlashRegister(8, addr),
    ensures
        holds_bytes(v, addr, cycle_size(later.trace, j), flash),
{
    reveal(served_at);
    assert(gave_bytes(
        Reply::Value(v),
        Action::WriteFlashRegister(8, addr),
        cycle_size(later.trace, j),
        flash,
    ));
}

/// What is read from the data register is what the flash holds.
proof fn lemma_data(run: Run, start: Run, later: Run, flash: spec_fn(int) -> u8, j: int, addr: u32)
    requires
        run.continues(start),
        later.continues(run.read_flash_register(0x10).0),
        !later.stalled,
        flash_serves(later, start.len(), flash),
        ({
            let end = run.read_flash_register(0x10).0;
            &&& 0 < j < run.len()
            &&& cycle_before(end.trace, run.len()) == j
            &&& end.trace[j] == Action::WriteFlashRegister(8, addr)
        }),
    ensures
        ({
            let (end, v) = run.read_flash_register(0x10);
            holds_bytes(v, addr, cycle_size(end.trace, j), flash)
        }),
{
    let end = run.read_flash_register(0x10).0;
    run.lemma_kept(start);
    later.lemma_kept(end);
    run.lemma_asked(Action::ReadFlashRegister(0x10));
    later.lemma_reply_kept(end, run.len());
    lemma_cycle_before_kept(end.trace, later.trace, run.len());
    assert(later.trace[run.len()] == end.trace[run.len()]);
    assert(later.trace[j] == end.trace[j] && later.trace[j - 1] == end.trace[j - 1]);
    assert(served_at(later, run.len(), flash));
    assert(cycle_before(later.trace, run.len()) == j);
    assert(cycle_size(later.trace, j) == cycle_size(end.trace, j));
    lemma_served(later, run.len(), flash, j, addr, run.read_flash_register(0x10).1);
}

proof fn lemma_access_goes_on(run: Run, cycle: Cycle, addr: u32)
    ensures
        run.flash_access(cycle, addr, 0).0.continues(run.flash_attempt(cycle, addr).0),
{
    let end = run.flash_attempt(cycle, addr).0;
    end.law_flash_access_resumes(cycle, addr, 1);
    end.lemma_start();
    reveal(Run::reached_from);
}

/// The flash controller before a cycle is described.
pub open spec fn prepared(run: Run) -> Run {
    let (s, sts) = run.usec_delay(1).read_flash_register16(4);
    s.write_flash_status(sts | 0x2 | 0x4).write_flash_status(sts | 0x2 | 0x4 | 0x1)
}

/// The run when a cycle has been described.
pub open spec fn described(run: Run, cycle: Cycle, addr: u32) -> (Run, bool, u16) {
    let upper = run.ctrl_in_upper_half(cycle);
    let (s, ctrl) = run.read_flash_ctrl(upper);
    (s, upper, (ctrl & !(0x0300u16 | 0x0006u16)) | cycle.fields())
}

proof fn lemma_first_look(run: Run, cycle: Cycle, addr: u32)
    ensures
        ({
            let s = run.usec_delay(1).read_flash_register16(4).0;
            run.flash_attempt(cycle, addr).0.continues(s)
        }),
{
    broadcast use {
        group_resumes,
        Run::law_flash_cycle_init_resumes,
        Run::law_set_up_cycle_resumes,
        Run::law_flash_cycle_resumes,
    };

    let s0 = run.usec_delay(1);
    let (s1, sts) = s0.read_flash_register16(4);
    s1.lemma_start();
    assert(s0.flash_cycle_init().0.continues(s1)) by {
        reveal(Run::flash_cycle_init);
        s1.write_flash_status(sts | 0x2 | 0x4).lemma_poll_flash_idle_continues(500);
    }
    assert(s0.flash_cycle_init().0.reached_from(s1)) by {
        reveal(Run::reached_from);
    }
    reveal(Run::flash_attempt);
}

proof fn lemma_second_look(run: Run, cycle: Cycle, addr: u32)
    requires
        status_good(run.usec_delay(1).read_flash_register16(4).1),
        !(cycle is WriteDword),
    ensures
        ({
            let (s, upper, fields) = described(prepared(run), cycle, addr);
            let t = s.write_flash_ctrl(upper, fields).write_flash_register(8, addr);
            &&& run.flash_attempt(cycle, addr).0.continues(started(t).0)
            &&& prepared(run).set_up_cycle(cycle, addr) == t
            &&& status_good(started(t).1) ==> run.flash_attempt(cycle, addr) == (
                started(t).0.read_flash_register(0x10).0,
                Attempt::Completed(started(t).0.read_flash_register(0x10).1),
            )
        }),
{
    broadcast use {group_resumes, Run::law_flash_cycle_resumes};

    lemma_init(run.usec_delay(1));
    let (s, upper, fields) = described(prepared(run), cycle, addr);
    let t = s.write_flash_ctrl(upper, fields).write_flash_register(8, addr);
    assert(prepared(run).set_up_cycle(cycle, addr) == t) by {
        reveal(Run::set_up_cycle);
    }
    let (u, done) = started(t);
    u.lemma_start();
    assert(t.flash_cycle(cycle.timeout()).0.continues(u)) by {
        reveal(Run::flash_cycle);
        if done & 0x1 == 0 {
            u.usec_delay(1).lemma_poll_flash_done_continues(cycle.timeout() as int);
        }
    }
    assert(t.flash_cycle(cycle.timeout()).0.reached_from(u)) by {
        reveal(Run::reached_from);
    }
    if status_good(done) {
        lemma_cycle(t, cycle.timeout());
    }
    reveal(Run::flash_attempt);
}

pub proof fn lemma_goes_on(a: Run, b: Run, c: Run)
    requires
        b.continues(a),
        c.continues(b),
    ensures
        c.continues(a),
{
    broadcast use group_resumes;

    a.lemma_start();
    assert(b.reached_from(a)) by {
        reveal(Run::reached_from);
    }
}

proof fn lemma_steps(run: Run, cycle: Cycle, addr: u32)
    ensures
        ({
            let (s, upper, fields) = described(prepared(run), cycle, addr);
            let t = s.write_flash_ctrl(upper, fields).write_flash_register(8, addr);
            let up = t.since(MacType::Mac_pch_spt);
            let (u, c) = t.read_flash_ctrl(up);
            let w = u.write_flash_ctrl(up, c | 0x1);
            &&& run.usec_delay(1).continues(run)
            &&& w.continues(run)
            &&& started(t) == w.read_flash_register16(4)
            &&& started(t).0.continues(run)
        }),
{
    broadcast use group_resumes;

    run.lemma_start();
}

/// A read cycle, where the controller is ready, completes at once, with the
/// bytes that the flash holds.
pub proof fn lemma_read_cycle(
    run: Run,
    start: Run,
    later: Run,
    flash: spec_fn(int) -> u8,
    cycle: Cycle,
    addr: u32,
)
    requires
        !(cycle is WriteDword),
        run.continues(start),
        later.continues(run.flash_access(cycle, addr, 0).0),
        !later.stalled,
        controller_ready(later, start.len()),
        flash_serves(later, start.len(), flash),
    ensures
        ({
            let (end, found) = run.flash_access(cycle, addr, 0);
            &&& found matches Some(v)
            &&& holds_bytes(v, addr, read_size(cycle), flash)
        }),
{
    let all = run.flash_access(cycle, addr, 0).0;
    let (end, attempt) = run.flash_attempt(cycle, addr);
    lemma_access_goes_on(run, cycle, addr);
    lemma_goes_on(end, all, later);
    lemma_steps(run, cycle, addr);
    let s0 = run.usec_delay(1);
    let s1 = s0.read_flash_register16(4).0;
    lemma_first_look(run, cycle, addr);
    lemma_goes_on(s1, end, later);
    lemma_goes_on(start, run, s0);
    lemma_status(s0, start, later);
    lemma_second_look(run, cycle, addr);
    let (s, upper, fields) = described(prepared(run), cycle, addr);
    let t = s.write_flash_ctrl(upper, fields).write_flash_register(8, addr);
    let up = t.since(MacType::Mac_pch_spt);
    let (u, c) = t.read_flash_ctrl(up);
    let w = u.write_flash_ctrl(up, c | 0x1);
    let x = started(t).0;
    lemma_goes_on(x, end, later);
    lemma_goes_on(start, run, w);
    lemma_goes_on(start, run, x);
    lemma_status(w, start, later);
    assert(!end.stalled) by {
        reveal(Run::continues);
    }
    lemma_places(s, upper, fields, addr);
    lemma_data(x, start, later, flash, s.len() + 1, addr);
    let ctrl = prepared(run).read_flash_ctrl(upper).1;
    lemma_flash_ctrl(ctrl, 0);
}

/// What is refused, and with nothing done: a byte or word beyond 0xFFFFFF or of
/// another size; a doubleword there or before Sunrise Point; a byte there or
/// from Sunrise Point on; to write a doubleword there from Sunrise Point on.
/// Everything else is tried, and is no error whatever comes of it.
pub proof fn law_flash_accesses(run: Run, offset: u32, size: u32, data: u16, byte: u8, dword: u32)
    ensures
        ({
            let far = offset > 0x00FF_FFFF;
            let spt = sunrise_point_on(run.hw.mac.mac_type);
            let (a, ra, va) = run.read_flash_data(offset, size, data);
            let (b, rb, vb) = run.read_flash_data32(offset, dword);
            let (c, rc, vc) = run.read_flash_byte(offset, byte);
            let (d, rd) = run.write_flash_data32(offset, dword);
            &&& ra is Err <==> (size != 1 && size != 2) || far
            &&& ra is Err ==> a == run && va == data && ra == Err::<(), _>(Error::FlashSizeOrOffset)
            &&& rb is Err <==> !spt || far
            &&& rb is Err ==> b == run && vb == dword && rb == Err::<(), _>(
                Error::FlashOffsetOrHardware,
            )
            &&& rc is Err <==> spt || far
            &&& rc is Err ==> c == run && vc == byte
            &&& spt ==> rc == Err::<(), _>(Error::DwordAccessOnly)
            &&& rd is Err <==> spt && far
            &&& rd is Err ==> d == run && rd == Err::<(), _>(Error::FlashOffset)
        }),
{
    reveal(Run::read_flash_data);
    reveal(Run::read_flash_data32);
    reveal(Run::read_flash_byte);
    reveal(Run::write_flash_data32);
}

/// A cycle is described by its control word, then its address, and then, if it
/// writes, its data. The control word has the number of bytes less one in bits
/// 9 and 8, and bit 2 set if the cycle writes; its other bits stay as they
/// were but for bit 1. It is the upper half of the doubleword at the status
/// register for a doubleword from Sunrise Point on, and on any family if the
/// doubleword is read; else it is written alone.
pub proof fn law_cycle_is_described(run: Run, cycle: Cycle, addr: u32)
    requires
        !run.set_up_cycle(cycle, addr).stalled,
    ensures
        ({
            let end = run.set_up_cycle(cycle, addr);
            let spt = sunrise_point_on(run.hw.mac.mac_type);
            let upper = cycle is ReadDword || (cycle is WriteDword && spt);
            let n = end.len() - if cycle is WriteDword {
                3int
            } else {
                2int
            };
            let was: u16 = if upper {
                (run.read_flash_register(4).1 >> 16) as u16
            } else {
                run.read_flash_register16(6).1
            };
            &&& exists|w: u16|
                {
                    &&& end.trace[n] == if upper {
                        Action::WriteFlashRegister(4, (w as u32) << 16)
                    } else {
                        Action::WriteFlashRegister16(6, w)
                    }
                    &&& #[trigger] (w & 0xFCF9) == was & 0xFCF9
                    &&& w & 0x0306 == match cycle {
                        Cycle::ReadByte => 0u16,
                        Cycle::ReadWord => 0x0100u16,
                        Cycle::ReadDword => 0x0300u16,
                        Cycle::WriteDword(_) => 0x0304u16,
                    }
                }
            &&& end.trace[n + 1] == Action::WriteFlashRegister(8, addr)
            &&& cycle matches Cycle::WriteDword(data) ==> end.trace[n + 2]
                == Action::WriteFlashRegister(0x10, data)
        }),
{
    reveal(Run::set_up_cycle);
    reveal(Run::act);
    reveal(Run::ask);
    let (s, upper, w) = described(run, cycle, addr);
    lemma_cycle_fields(s.read_flash_ctrl(upper).1);
    lemma_cycle_fields(run.read_flash_ctrl(upper).1);
    assert(w & 0xFCF9 == run.read_flash_ctrl(upper).1 & 0xFCF9);
}

/// A cycle succeeds if the status that ends the wait has it done without an
/// error. Of one that does not, the status is looked at again: it is given up
/// if that shows neither an error nor the cycle done, and may be repeated
/// otherwise.
pub proof fn law_failed_cycle(run: Run, cycle: Cycle, addr: u32)
    requires
        run.usec_delay(1).flash_cycle_init().1 is Ok,
    ensures
        ({
            let (end, attempt) = run.flash_attempt(cycle, addr);
            let s = run.usec_delay(1).flash_cycle_init().0.set_up_cycle(cycle, addr);
            let (t, r) = s.flash_cycle(500);
            let (u, sts) = t.read_flash_register16(4);
            &&& r is Err ==> end == u
            &&& r is Err && sts & 2 == 0 && sts & 1 == 0 ==> attempt is GaveUp
            &&& r is Err && (sts & 2 != 0 || sts & 1 != 0) ==> attempt is Failed
            &&& r is Ok ==> attempt is Completed
            &&& r is Ok && cycle is WriteDword ==> end == t
        }),
{
    reveal(Run::flash_attempt);
}

/// Without a valid descriptor nothing is written and the cycle is given up.
pub proof fn law_no_descriptor(run: Run, cycle: Cycle, addr: u32)
    ensures
        ({
            let (s, sts) = run.usec_delay(1).read_flash_register16(4);
            &&& sts & 0x4000 == 0 ==> run.flash_attempt(cycle, addr) == (s, Attempt::GaveUp)
            &&& run.usec_delay(1).flash_cycle_init().1 is Err ==> run.flash_attempt(cycle, addr).1
                is GaveUp
        }),
{
    reveal(Run::flash_attempt);
    reveal(Run::flash_cycle_init);
}

} // verus!
