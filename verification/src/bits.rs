//! Facts about single bits of the registers that the laws speak of.

use vstd::prelude::*;

verus! {

pub proof fn lemma_bits_32(v: u32)
    by (bit_vector)
    ensures
        0u32 & 8 == 0,
        v & 1 != 1 <==> v & 1 == 0,
        (v | 0x1 | 0x1000) == (v & !0) | 0x1001,
        (v | 0x8000_0000) & 0x8000_0000 != 0,
        (v | 0x0400_0000) & 0x0400_0000 != 0,
        (v | 0x0400_0000) & 0x8000_0000 == v & 0x8000_0000,
        ((v | 0x0001_0000) & !0x0002_0000) & !0x0001_0000 == v & !0x0003_0000,
        v | 0x0040_0000 == (v & !0) | 0x0040_0000,
        (v | 0x0040_0000) | 0x0010_0000 == (v & !0) | 0x0050_0000,
        (v | 0x3000_0000) | 0x0D80_0000 == (v & !0) | 0x3D80_0000,
        v | 0x0D80_0000 == (v & !0) | 0x0D80_0000,
        v | (0x0000_0040u32 | 0x0000_0080u32) == (v & !0) | 0x0000_00C0,
        (v | (0x0000_0040u32 | 0x0000_0080u32)) | (0x0001_0000u32 | 0x0002_0000u32) == (v & !0)
            | 0x0003_00C0,
{
}

pub proof fn lemma_bits_16(v: u16, a: u16)
    by (bit_vector)
    ensures
        v | a == (v & !0) | a,
        (v & !a) | 0 == v & !a,
        (v & 0x0FFC) >> 2u16 < 0x18 <==> v & 0x0FFC < 0x60,
        ((v as u32) << 16u32) | (a as u32 & 0xFFFF_FFF0) == v * 0x1_0000 + a - a % 16,
        v & 0x6000 == 0 ==> {
            &&& v & 0x4000 == 0 && v & 0x2000 == 0 && v & !0x6000 == v
            &&& (v | 0x4000) & 0x4000 != 0 && (v | 0x4000) & 0x2000 == 0
            &&& (v | 0x4000) & !0x6000 == v
            &&& (v | 0x2000) & 0x4000 == 0 && (v | 0x2000) & 0x2000 != 0
            &&& (v | 0x2000) & !0x6000 == v
            &&& (v | 0x4000 | 0x2000) & 0x4000 != 0 && (v | 0x4000 | 0x2000) & 0x2000 != 0
            &&& (v | 0x4000 | 0x2000) & !0x6000 == v
        },
{
}

/// What a cycle's fields make of the flash control register, and how it reads
/// as the upper half of a doubleword.
pub proof fn lemma_flash_ctrl(c: u16, s: u16)
    by (bit_vector)
    ensures
        (((c & !(0x0300u16 | 0x0006u16)) | (0x0000u16 | 0x0000u16)) >> 8u16) & 3 == 0,
        (((c & !(0x0300u16 | 0x0006u16)) | (0x0100u16 | 0x0000u16)) >> 8u16) & 3 == 1,
        (((c & !(0x0300u16 | 0x0006u16)) | (0x0300u16 | 0x0000u16)) >> 8u16) & 3 == 3,
        (((c as u32) << 16u32) >> 24u32) & 3 == (((c >> 8u16) & 3) as u32),
        s & 0x20 == 0 ==> (s | 0x2 | 0x4) & 0x20 == 0,
{
}

/// The bytes of a value, and what is made up of them.
pub proof fn lemma_bytes(v: u32)
    by (bit_vector)
    ensures
        (v & 0xFF) as u16 == v & 0xFF,
        ((v & 0xFF) as u16) as u8 == v & 0xFF,
        (v & 0xFFFF) as u16 == (v & 0xFF) + 256 * ((v >> 8u32) & 0xFF),
        ((v >> 16u32) & 0xFFFF) as u16 == ((v >> 16u32) & 0xFF) + 256 * ((v >> 24u32) & 0xFF),
        ((v & 0xFF00) >> 8u32) as u8 == (v >> 8u32) & 0xFF,
        v < 0x8000_0000 ==> v << 1u32 == v * 2,
        v <= 0x00FF_FFFF ==> 0x00FF_FFFF & v == v,
        (v & 0xFF) as u16 <= 0xFF,
        0x00FF_FFFF & v <= 0x00FF_FFFF,
        v & 0xFFFF <= 0xFFFF,
{
}

/// Bits of the registers that are set up for a link.
pub proof fn lemma_setup_bits(v: u32)
    by (bit_vector)
    ensures
        ((v | 0x0040) & !(0x0800u32 | 0x1000u32)) & 0x0040 != 0,
        ((v | 0x0040) & !(0x0800u32 | 0x1000u32)) & 0x1800 == 0,
        ((v | 0x0040) & !(0x0800u32 | 0x1000u32)) & !0x1840 == v & !0x1840,
        ((((v & !0x003F_0000) | 0x0101_0000) & !0x0000_003F) | 0x0100_001F) & 0x003F_0000
            == 0x0001_0000,
        ((((v & !0x003F_0000) | 0x0101_0000) & !0x0000_003F) | 0x0100_001F) & 0x0000_003F
            == 0x0000_001F,
        ((((v & !0x003F_0000) | 0x0101_0000) & !0x0000_003F) | 0x0100_001F) & 0x0100_0000 != 0,
        ((((v & !0x003F_0000) | 0x0101_0000) & !0x0000_003F) | 0x0100_001F) & !0x013F_003F == v
            & !0x013F_003F,
        (v | 0x8000_0000) & 0x8000_0000 != 0,
        (v & !0x8000_0000) & 0x8000_0000 == 0,
        (v | 0x8000_0000) & !0x8000_0000 == v & !0x8000_0000,
        (v & !0x8000_0000) & !0x8000_0000 == v & !0x8000_0000,
        0x1Fu16 << 2u16 == 0x007Cu16,
        0x8u16 << 2u16 == 0x0020u16,
        !0x0000_003Fu32 == 0xFFFF_FFC0u32,
        778u16 << 5u16 == 0x6140u16,
{
}

/// The sizes that the straps and the flash region give.
pub proof fn lemma_nvm_sizes(v: u32)
    by (bit_vector)
    ensures
        (v >> 1u32) & 0x1F == (v / 2) % 32,
        v & 0x1FFF == v % 0x2000,
        (v >> 16u32) & 0x1FFF == (v / 0x1_0000) % 0x2000,
        (v & 0x1FFF) << 12u32 == (v % 0x2000) * 4096,
        v <= 0x2000 ==> (v << 12u32) / 4 == v * 1024,
{
}

/// The lock field of the firmware status, and the valid bit of an address.
pub proof fn lemma_address_bits(v: u32, h: u32)
    by (bit_vector)
    requires
        h <= 0xFFFF,
    ensures
        (v & 0x380) >> 7u32 == (v / 0x80) % 8,
        h | 0x8000_0000 == h + 0x8000_0000,
        h < 384 ==> (h & 0x1F) | ((800u32 & 0xFFFF) << 5u32) | ((h & !0x1F) << 16u32) == h % 32
            + 800 * 32 + (h / 32) * 0x20_0000,
{
}

/// The fields of the flash control register that describe a cycle.
pub proof fn lemma_cycle_fields(c: u16)
    by (bit_vector)
    ensures
        ({
            let kept = c & !(0x0300u16 | 0x0006u16);
            &&& (kept | (0x0000u16 | 0x0000u16)) & 0xFCF9 == c & 0xFCF9
            &&& (kept | (0x0100u16 | 0x0000u16)) & 0xFCF9 == c & 0xFCF9
            &&& (kept | (0x0300u16 | 0x0000u16)) & 0xFCF9 == c & 0xFCF9
            &&& (kept | (0x0300u16 | 0x0004u16)) & 0xFCF9 == c & 0xFCF9
            &&& (kept | (0x0000u16 | 0x0000u16)) & 0x0306 == 0
            &&& (kept | (0x0100u16 | 0x0000u16)) & 0x0306 == 0x0100
            &&& (kept | (0x0300u16 | 0x0000u16)) & 0x0306 == 0x0300
            &&& (kept | (0x0300u16 | 0x0004u16)) & 0x0306 == 0x0304
        }),
{
}

} // verus!
