//! Latency tolerance reporting: how long the platform may keep the device
//! waiting, and at which fill level buffers are flushed.

use vstd::prelude::*;
use crate::bits::lemma_bytes;
use crate::consts::{
    E1000_LTRV, E1000_LTRV_NOSNOOP_SHIFT, E1000_LTRV_REQ_SHIFT, E1000_LTRV_SCALE_FACTOR,
    E1000_LTRV_SCALE_MASK, E1000_LTRV_SCALE_MAX, E1000_LTRV_SCALE_SHIFT, E1000_LTRV_SEND,
    E1000_LTRV_VALUE_MASK, E1000_PBA, E1000_PBA_RXA_MASK, E1000_PCI_LTR_CAP_LPT, E1000_SVCR, E1000_SVCR_OFF_EN,
    E1000_SVCR_OFF_MASKINT, E1000_SVT, E1000_SVT_OFF_HWM_MASK,
};
use crate::error::{AdResult, Error};
use crate::io::{Adapter, Feature, Run};
use crate::link_info::op_link_up_info;

verus! {

/// The time unit of a latency scale, in nanoseconds: 32 to the power of the
/// scale.
pub open spec fn scale_ns(scale: int) -> int {
    if scale == 0 {
        1
    } else if scale == 1 {
        0x20
    } else if scale == 2 {
        0x400
    } else if scale == 3 {
        0x8000
    } else if scale == 4 {
        0x10_0000
    } else if scale == 5 {
        0x200_0000
    } else if scale == 6 {
        0x4000_0000
    } else {
        0x8_0000_0000
    }
}

/// The latency that an encoding stands for: a 10-bit value times the unit of
/// a 3-bit scale above it.
pub open spec fn latency_ns(enc: int) -> int {
    (enc % 1024) * scale_ns((enc / 1024) % 8)
}

/// Determines the latency in nanoseconds that an encoding stands for.
pub fn ltr2ns(ltr: u16) -> (ns: u64)
    ensures
        ns == latency_ns(ltr as int),
        ns <= 1023 * 0x8_0000_0000,
{
    let value: u32 = ltr as u32 & E1000_LTRV_VALUE_MASK;
    let scale: u32 = (ltr as u32 & E1000_LTRV_SCALE_MASK) >> E1000_LTRV_SCALE_SHIFT;
    let l: u32 = ltr as u32;
    assert(l & 0x3FF == l % 1024 && (l & 0x1C00) >> 10 == (l / 1024) % 8) by (bit_vector);
    assert(scale == (ltr as int / 1024) % 8);
    assert(1u64 << 0 == 1 && 1u64 << 5 == 0x20 && 1u64 << 10 == 0x400 && 1u64 << 15 == 0x8000
        && 1u64 << 20 == 0x10_0000 && 1u64 << 25 == 0x200_0000 && 1u64 << 30 == 0x4000_0000 && 1u64
        << 35 == 0x8_0000_0000) by (bit_vector);
    let unit: u64 = 1u64 << (scale * E1000_LTRV_SCALE_FACTOR);
    assert(unit == scale_ns(scale as int) && unit <= 0x8_0000_0000);
    assert(0 <= value * unit <= 1023 * 0x8_0000_0000) by (nonlinear_arith)
        requires
            value <= 1023,
            unit <= 0x8_0000_0000,
    ;
    value as u64 * unit
}

/// `a` divided by `b`, rounded up.
pub open spec fn ceil_div(a: int, b: int) -> int {
    (a + b - 1) / b
}

/// The smallest scale at which a latency, rounded up, fits 10 bits. Scale 4
/// is enough for every latency below 2^30 ns.
pub open spec fn scale_of(ns: int) -> int {
    if ns <= 1023 {
        0
    } else if ceil_div(ns, scale_ns(1)) <= 1023 {
        1
    } else if ceil_div(ns, scale_ns(2)) <= 1023 {
        2
    } else if ceil_div(ns, scale_ns(3)) <= 1023 {
        3
    } else {
        4
    }
}

/// The encoding of a latency: the smallest scale that fits, and the latency in
/// units of that scale, rounded up.
pub open spec fn encode_latency(ns: int) -> int {
    scale_of(ns) * 1024 + ceil_div(ns, scale_ns(scale_of(ns)))
}

/// The longest latency that any packet buffer can tolerate, in nanoseconds.
pub const MAX_LATENCY_NS: i64 = 0xFFFF * 1024;

/// Encodes a latency.
fn encode(ns: i64) -> (enc: u16)
    requires
        0 <= ns <= MAX_LATENCY_NS,
    ensures
        enc == encode_latency(ns as int),
        enc < 5 * 1024,
{
    let mut value: i64 = ns;
    let mut scale: u16 = 0;
    while value > E1000_LTRV_VALUE_MASK as i64
        invariant
            0 <= ns <= MAX_LATENCY_NS,
            0 <= value <= ns,
            scale <= 4,
            value == ceil_div(ns as int, scale_ns(scale as int)),
            scale >= 1 ==> ns > 1023,
            scale >= 2 ==> ceil_div(ns as int, scale_ns(1)) > 1023,
            scale >= 3 ==> ceil_div(ns as int, scale_ns(2)) > 1023,
            scale >= 4 ==> ceil_div(ns as int, scale_ns(3)) > 1023,
        decreases value,
    {
        assert(scale < 4);
        scale = scale + 1;
        value = (value + 31) / 32;
    }
    let v: u16 = value as u16;
    assert((scale << 10) | v == scale * 1024 + v) by (bit_vector)
        requires
            scale <= 4,
            v <= 1023,
    ;
    (scale << E1000_LTRV_SCALE_SHIFT) | v
}

/// The latency that the device tolerates with a receive buffer of `rxa` KB,
/// frames of up to `frame` bytes and a link of `speed` Mb/s.
pub open spec fn tolerated_ns(rxa: int, frame: int, speed: int) -> int {
    let bits = rxa * 1024 - (2 * frame) * 8 * 1000;
    if bits < 0 {
        0
    } else {
        bits / speed
    }
}

/// The latency to report, encoded, and the fill level in KB at which buffers
/// are flushed, given the longest latency that the platform supports.
pub open spec fn ltr_choice(rxa: int, frame: int, speed: int, platform_max: int) -> (int, int) {
    let own = tolerated_ns(rxa, frame, speed);
    let (enc, ns) = if encode_latency(own) > platform_max {
        (platform_max, latency_ns(platform_max))
    } else {
        (encode_latency(own), own)
    };
    let high_water = if ns == 0 {
        0
    } else {
        rxa - ns * (speed * 1000) / 8 / 1_000_000_000
    };
    (enc, high_water)
}

/// Chooses the latency to report and the high-water mark for a link that is
/// up.
pub fn choose_ltr(rxa: u32, max_frame_size: u32, speed: u16, platform_max: u16) -> (res: (u16, i32))
    requires
        rxa <= E1000_PBA_RXA_MASK,
        speed > 0,
    ensures
        (res.0 as int, res.1 as int) == ltr_choice(
            rxa as int,
            max_frame_size as int,
            speed as int,
            platform_max as int,
        ),
{
    let mut lat_ns: i64 = rxa as i64 * 1024 - (2 * (max_frame_size as i64)) * 8 * 1000;
    if lat_ns < 0 {
        lat_ns = 0;
    } else {
        let bits: i64 = lat_ns;
        lat_ns = bits / speed as i64;
        assert(0 <= bits / (speed as i64) <= bits) by (nonlinear_arith)
            requires
                bits >= 0,
                speed > 0,
        ;
    }
    let mut lat_enc: u16 = encode(lat_ns);
    if lat_enc > platform_max {
        lat_enc = platform_max;
        let ns: u64 = ltr2ns(platform_max);
        assert(ns <= 1023 * 0x10_0000) by {
            let v: int = platform_max as int % 1024;
            let unit: int = scale_ns((platform_max as int / 1024) % 8);
            assert(v * unit <= 1023 * 0x10_0000) by (nonlinear_arith)
                requires
                    0 <= v <= 1023,
                    0 <= unit <= 0x10_0000,
            ;
        }
        lat_ns = ns as i64;
    }
    let mut hwm: i32 = 0;
    if lat_ns != 0 {
        let rate: i64 = speed as i64 * 1000;
        assert(0 <= lat_ns * rate <= 1023 * 0x10_0000 * 65_535_000) by (nonlinear_arith)
            requires
                0 <= lat_ns <= 1023 * 0x10_0000,
                0 <= rate <= 65_535_000,
        ;
        let level: i64 = lat_ns * rate / 8 / 1_000_000_000;
        hwm = (rxa as i64 - level) as i32;
    }
    (lat_enc, hwm)
}

/// The latency register for a link that is up: the same latency for snooped
/// and other accesses, with both requirement bits and the send bit.
pub open spec fn ltrv_up(enc: u16) -> u32 {
    (1u32 << (E1000_LTRV_REQ_SHIFT + E1000_LTRV_NOSNOOP_SHIFT)) | (1u32 << E1000_LTRV_REQ_SHIFT)
        | E1000_LTRV_SEND | (enc as u32 | ((enc as u32) << E1000_LTRV_NOSNOOP_SHIFT))
}

/// The encoding of a latency stands for that latency or a longer one, and for
/// less than one unit of its scale longer.
pub proof fn law_encoding_rounds_up(ns: int)
    requires
        0 <= ns <= MAX_LATENCY_NS,
    ensures
        0 <= encode_latency(ns) < 5 * 1024,
        ns <= latency_ns(encode_latency(ns)) < ns + scale_ns(scale_of(ns)),
{
    let scale = scale_of(ns);
    let value = ceil_div(ns, scale_ns(scale));
    assert(0 <= value <= 1023);
    let enc = encode_latency(ns);
    assert(enc == scale * 1024 + value);
    assert(enc % 1024 == value && enc / 1024 == scale);
    if scale == 0 {
        assert(value * 1 == value) by (nonlinear_arith);
    } else if scale == 1 {
        assert(value * scale_ns(1) == value * 0x20);
    } else if scale == 2 {
        assert(value * scale_ns(2) == value * 0x400);
    } else if scale == 3 {
        assert(value * scale_ns(3) == value * 0x8000);
    } else {
        assert(value * scale_ns(4) == value * 0x10_0000);
    }
}

/// Whatever the device tolerates can be encoded: the scale is always a valid
/// one.
pub proof fn law_scale_is_valid(rxa: int, frame: int, speed: int)
    requires
        0 <= rxa <= E1000_PBA_RXA_MASK,
        0 <= frame,
        0 < speed,
    ensures
        encode_latency(tolerated_ns(rxa, frame, speed)) / 1024 <= E1000_LTRV_SCALE_MAX,
{
    lemma_tolerated_bounds(rxa, frame, speed);
    law_encoding_rounds_up(tolerated_ns(rxa, frame, speed));
}

/// The latency that the device tolerates grows with the receive buffer and
/// falls with the frame size and the speed of the link.
pub proof fn law_latency_follows_buffer_and_speed(
    rxa: int,
    frame: int,
    speed: int,
    rxa2: int,
    frame2: int,
    speed2: int,
)
    requires
        0 <= rxa <= rxa2,
        0 <= frame2 <= frame,
        0 < speed2 <= speed,
    ensures
        tolerated_ns(rxa, frame, speed) <= tolerated_ns(rxa2, frame2, speed2),
{
    let a = rxa * 1024 - (2 * frame) * 8 * 1000;
    let b = rxa2 * 1024 - (2 * frame2) * 8 * 1000;
    assert(a <= b);
    if 0 <= a {
        assert(a / speed <= b / speed2) by (nonlinear_arith)
            requires
                0 <= a <= b,
                0 < speed2 <= speed,
        ;
    } else if 0 <= b {
        assert(0 <= b / speed2) by (nonlinear_arith)
            requires
                0 <= b,
                0 < speed2,
        ;
    }
}

/// Whether an encoding uses the smallest scale that its latency fits, as
/// `encode_latency` does, and has no other bits.
pub open spec fn normal(enc: int) -> bool {
    0 <= enc < 8 * 1024 && (enc >= 1024 ==> enc % 1024 >= 32)
}

/// No encoding with a smaller number stands for a longer latency than one that
/// uses the smallest scale.
pub proof fn law_encodings_compare(a: int, b: int)
    requires
        0 <= a <= b,
        normal(b),
    ensures
        latency_ns(a) <= latency_ns(b),
{
    let (va, sa) = (a % 1024, a / 1024);
    let (vb, sb) = (b % 1024, b / 1024);
    assert(sa <= sb && 0 <= sa <= 7 && 0 <= sb <= 7);
    if sa == sb {
        assert(va <= vb);
        let unit = scale_ns(sa);
        assert(va * unit <= vb * unit) by (nonlinear_arith)
            requires
                va <= vb,
                unit >= 0,
        ;
    } else {
        let (ua, ub) = (scale_ns(sa), scale_ns(sb));
        assert(32 * ua <= ub);
        assert(va * ua <= 1023 * ua) by (nonlinear_arith)
            requires
                va <= 1023,
                ua >= 0,
        ;
        assert(32 * ub <= vb * ub) by (nonlinear_arith)
            requires
                vb >= 32,
                ub >= 0,
        ;
    }
}

/// The latency reported does not exceed the longest that the platform
/// supports: never as an encoding, and not in nanoseconds either if the
/// platform's encoding uses the smallest scale.
pub proof fn law_platform_limit(rxa: int, frame: int, speed: int, platform_max: int)
    requires
        0 <= rxa <= E1000_PBA_RXA_MASK,
        0 <= frame,
        0 < speed,
        0 <= platform_max <= u16::MAX,
    ensures
        ltr_choice(rxa, frame, speed, platform_max).0 <= platform_max,
        normal(platform_max) ==> latency_ns(ltr_choice(rxa, frame, speed, platform_max).0)
            <= latency_ns(platform_max),
{
    let own = tolerated_ns(rxa, frame, speed);
    lemma_tolerated_bounds(rxa, frame, speed);
    law_encoding_rounds_up(own);
    let enc = encode_latency(own);
    if enc <= platform_max && normal(platform_max) {
        lemma_encode_normal(own);
        law_encodings_compare(enc, platform_max);
    }
}

/// The high-water mark is within the receive buffer.
pub proof fn law_high_water_within_buffer(rxa: int, frame: int, speed: int, platform_max: int)
    requires
        0 <= rxa <= E1000_PBA_RXA_MASK,
        0 <= frame,
        0 < speed,
        0 <= platform_max <= u16::MAX,
    ensures
        0 <= ltr_choice(rxa, frame, speed, platform_max).1 <= rxa,
{
    let own = tolerated_ns(rxa, frame, speed);
    lemma_tolerated_bounds(rxa, frame, speed);
    let ns = if encode_latency(own) > platform_max {
        latency_ns(platform_max)
    } else {
        own
    };
    assert(0 <= ns <= 2 * own) by {
        if encode_latency(own) > platform_max {
            lemma_encode_normal(own);
            law_encodings_compare(platform_max, encode_latency(own));
            law_encoding_rounds_up(own);
            let (v, unit) = (platform_max % 1024, scale_ns((platform_max / 1024) % 8));
            assert(v * unit >= 0) by (nonlinear_arith)
                requires
                    v >= 0,
                    unit >= 0,
            ;
        }
    }
    assert(0 <= ns * (speed * 1000) <= 2 * (own * speed) * 1000) by (nonlinear_arith)
        requires
            0 <= ns <= 2 * own,
            speed > 0,
    ;
}

proof fn lemma_tolerated_bounds(rxa: int, frame: int, speed: int)
    requires
        0 <= rxa <= E1000_PBA_RXA_MASK,
        0 <= frame,
        0 < speed,
    ensures
        0 <= tolerated_ns(rxa, frame, speed) <= MAX_LATENCY_NS,
        tolerated_ns(rxa, frame, speed) * speed <= rxa * 1024,
{
    let bits = rxa * 1024 - (2 * frame) * 8 * 1000;
    if bits >= 0 {
        assert(0 <= bits / speed <= bits && (bits / speed) * speed <= bits) by (nonlinear_arith)
            requires
                bits >= 0,
                speed > 0,
        ;
    } else {
        assert(0 * speed == 0) by (nonlinear_arith);
    }
}

proof fn lemma_encode_normal(ns: int)
    requires
        0 <= ns <= MAX_LATENCY_NS,
    ensures
        normal(encode_latency(ns)),
{
    let scale = scale_of(ns);
    let value = ceil_div(ns, scale_ns(scale));
    assert(0 <= value <= 1023);
    assert(encode_latency(ns) % 1024 == value);
    assert(scale >= 1 ==> value >= 32);
}

/// With a link, snooped and other accesses are given the same latency, both
/// with a requirement, and the message is sent; without a link there is a
/// message without a requirement.
pub proof fn law_latency_register(enc: u16)
    requires
        enc < 0x2000,
    ensures
        ltrv_up(enc) & 0x1FFF == enc,
        (ltrv_up(enc) >> 16) & 0x1FFF == enc,
        ltrv_up(enc) & 0x8000_8000 == 0x8000_8000,
        ltrv_up(enc) & E1000_LTRV_SEND != 0,
        E1000_LTRV_SEND & 0x8000_8000 == 0,
{
    let e = enc as u32;
    assert({
        let l = (1u32 << (15u32 + 16u32) as u32) | (1u32 << 15u32) | 0x4000_0000 | (e | (e << 16u32));
        &&& l & 0x1FFF == e
        &&& (l >> 16) & 0x1FFF == e
        &&& l & 0x8000_8000 == 0x8000_8000
        &&& l & 0x4000_0000 != 0
        &&& 0x4000_0000u32 & 0x8000_8000 == 0
    }) by (bit_vector)
        requires
            e < 0x2000,
    ;
}

impl Run {
    /// Reports a latency, sets the high-water mark, and enables buffer
    /// flushing with interrupts always unblocked.
    #[verifier::opaque]
    pub open spec fn program_ltr(self, ltrv: u32, high_water: u32) -> Run {
        let s = self.write_register(E1000_LTRV, ltrv).modify_register(
            E1000_SVT,
            E1000_SVT_OFF_HWM_MASK,
            high_water,
        );
        let (s, svcr) = s.read_register(E1000_SVCR);
        s.write_register(E1000_SVCR, svcr | E1000_SVCR_OFF_EN | E1000_SVCR_OFF_MASKINT)
    }

    /// Without a link, reports that there is no requirement. With one, reports
    /// what `ltr_choice` gives; fails if the frame size, the link information
    /// or the speed is missing, or if the high-water mark is out of range.
    #[verifier::opaque]
    pub open spec fn platform_pm(self, link: bool) -> (Run, AdResult) {
        if !link {
            (self.program_ltr(E1000_LTRV_SEND, 0), Ok(()))
        } else if self.hw.mac.max_frame_size == 0 {
            (self, Err(Error::MaxFrameSizeNotSet))
        } else {
            let (s, r, speed, _) = self.op_link_up_info(0, 0);
            if r is Err {
                (s, r)
            } else if speed == 0 {
                (s, Err(Error::SpeedNotSet))
            } else {
                let frame = s.hw.mac.max_frame_size;
                let (s, pba) = s.read_register(E1000_PBA);
                let (s, snoop) = s.pci_read_config(E1000_PCI_LTR_CAP_LPT, 2);
                let (s, nosnoop) = s.pci_read_config((E1000_PCI_LTR_CAP_LPT + 2) as u32, 2);
                let platform_max = if snoop as u16 >= nosnoop as u16 {
                    snoop as u16
                } else {
                    nosnoop as u16
                };
                let (enc, high_water) = ltr_choice(
                    (pba & E1000_PBA_RXA_MASK) as int,
                    frame as int,
                    speed as int,
                    platform_max as int,
                );
                if 0 <= high_water <= E1000_SVT_OFF_HWM_MASK {
                    (s.program_ltr(ltrv_up(enc as u16), high_water as u32), Ok(()))
                } else {
                    (s, Err(Error::InvalidHighWaterMark(high_water as i32)))
                }
            }
        }
    }
}

fn program_ltr(adapter: &mut Adapter, ltrv: u32, high_water: u32)
    requires
        old(adapter).wf(),
    ensures
        final(adapter).wf(),
        final(adapter)@ == old(adapter)@.program_ltr(ltrv, high_water),
{
    reveal(Run::program_ltr);
    adapter.write_register(E1000_LTRV, ltrv);
    adapter.modify_register(E1000_SVT, E1000_SVT_OFF_HWM_MASK, high_water);
    let svcr = adapter.read_register(E1000_SVCR);
    // Interrupts stay unblocked while buffers are flushed, so that sparse
    // traffic is neither dropped nor delayed.
    adapter.write_register(E1000_SVCR, svcr | E1000_SVCR_OFF_EN | E1000_SVCR_OFF_MASKINT);
}

/// Sets the platform power management values: the latency that the device
/// tolerates, from the receive buffer size and the link speed but no more
/// than the platform supports, and the high-water mark that follows from it.
/// Without a link there is no latency requirement.
pub fn platform_pm_pch_lpt(adapter: &mut Adapter, link: bool) -> (res: AdResult)
    requires
        old(adapter).wf(),
    ensures
        final(adapter).wf(),
        (final(adapter)@, res) == old(adapter)@.platform_pm(link),
{
    reveal(Run::platform_pm);
    if !link {
        program_ltr(adapter, E1000_LTRV_SEND, 0);
        return Ok(());
    }
    if adapter.hw.mac.max_frame_size == 0 {
        return Err(Error::MaxFrameSizeNotSet);
    }
    let mut speed: u16 = 0;
    let mut duplex: u16 = 0;
    if let Err(e) = op_link_up_info(adapter, &mut speed, &mut duplex) {
        return Err(e);
    }
    if speed == 0 {
        return Err(Error::SpeedNotSet);
    }
    let frame: u32 = adapter.hw.mac.max_frame_size;
    let pba = adapter.read_register(E1000_PBA);
    proof {
        lemma_bytes(pba);
    }
    let rxa: u32 = pba & E1000_PBA_RXA_MASK;
    let max_snoop: u16 = adapter.pci_read_config(E1000_PCI_LTR_CAP_LPT, 2) as u16;
    let max_nosnoop: u16 = adapter.pci_read_config(E1000_PCI_LTR_CAP_LPT + 2, 2) as u16;
    let platform_max: u16 = if max_snoop >= max_nosnoop {
        max_snoop
    } else {
        max_nosnoop
    };
    let (lat_enc, hwm) = choose_ltr(rxa, frame, speed, platform_max);
    if hwm < 0 || hwm > E1000_SVT_OFF_HWM_MASK as i32 {
        return Err(Error::InvalidHighWaterMark(hwm));
    }
    let ltrv: u32 = (1u32 << (E1000_LTRV_REQ_SHIFT + E1000_LTRV_NOSNOOP_SHIFT)) | (1u32
        << E1000_LTRV_REQ_SHIFT) | E1000_LTRV_SEND | (lat_enc as u32 | ((lat_enc as u32)
        << E1000_LTRV_NOSNOOP_SHIFT));
    program_ltr(adapter, ltrv, hwm as u32);
    Ok(())
}

/// Updates the timer of optimized buffer flush and fill; not implemented.
pub fn set_obff_timer_pch_lpt(adapter: &mut Adapter, itr: u32) -> (res: AdResult)
    requires
        old(adapter).wf(),
    ensures
        final(adapter).wf(),
        (final(adapter)@, res) == old(adapter)@.incomplete(Feature::SetObffTimerPchLpt),
{
    adapter.incomplete(Feature::SetObffTimerPchLpt)
}

} // verus!
