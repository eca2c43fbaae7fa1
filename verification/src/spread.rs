//! Bit-spread primitives: pure functions that move the bits of one packed
//! coordinate out to every Nth bit position (leaving gaps for the other
//! axes), and their inverses, which compact them back.
//!
//! Each width is a fixed branch-free sequence of mask/shift/OR steps: at
//! every step the working value is split in two by complementary masks, one
//! half is shifted by a halving power of two, and the halves are recombined.

use vstd::prelude::*;

use crate::bits::{bit16, bit32, bit64};

verus! {

/// `s` is the 2-way spread of `x`'s low 16 bits: bit `i` of `x` sits at
/// bit `2*i` of `s`, and every odd bit of `s` is zero.
pub open spec fn spread2_16_rel(x: u32, s: u32) -> bool {
    forall|i: u32| i < 32 ==> (#[trigger] bit32(s, i)) == (i % 2 == 0 && bit32(x, i / 2))
}

/// `u` is the 2-way compaction of `x`: bit `i` of `u` is bit `2*i` of `x`,
/// and the high half of `u` is zero.  Odd bits of `x` are ignored.
pub open spec fn unspread2_16_rel(x: u32, u: u32) -> bool {
    forall|i: u32| i < 32 ==> (#[trigger] bit32(u, i)) == (i < 16 && bit32(x, (2 * i) as u32))
}

/// `s` is the 3-way spread of `x`'s low 21 bits: bit `i` of `x` sits at
/// bit `3*i` of `s`, and all other bits of `s` are zero.
pub open spec fn spread3_21_rel(x: u32, s: u64) -> bool {
    forall|i: u64| i < 64 ==> (#[trigger] bit64(s, i)) == (i % 3 == 0 && i < 63 && bit64(
        x as u64,
        i / 3,
    ))
}

/// `u` is the 3-way compaction of `x`: bit `i` of `u` is bit `3*i` of `x`,
/// and bits 21 and above of `u` are zero.  Bits of `x` that are not at a
/// multiple of three are ignored.
pub open spec fn unspread3_21_rel(x: u64, u: u32) -> bool {
    forall|i: u32| i < 32 ==> (#[trigger] bit32(u, i)) == (i < 21 && bit64(x, (3 * i) as u64))
}

/// `s` is the 3-way spread of `x`'s low 5 bits: bit `i` of `x` sits at
/// bit `3*i` of `s`, and all other bits of `s` are zero.
pub open spec fn spread3_5_rel(x: u16, s: u16) -> bool {
    forall|i: u16| i < 16 ==> (#[trigger] bit16(s, i)) == (i % 3 == 0 && i < 15 && bit16(x, i / 3))
}

/// `s` is the 3-way spread of four packed 5-bit values at once: within each
/// 16-bit lane, bit `j` of the lane sits at bit `3*j` of the same lane of
/// `s`, and all other bits are zero.
pub open spec fn spread3_5x4_rel(x: u64, s: u64) -> bool {
    forall|i: u64| i < 64 ==> (#[trigger] bit64(s, i)) == (i % 16 < 15 && (i % 16) % 3 == 0
        && bit64(x, ((i / 16) * 16 + (i % 16) / 3) as u64))
}

/// Spread the low 16 bits of `x0` so bit `i` lands at bit `2*i`; all other
/// bits of the result are zero.  Bits 16 and above of `x0` are ignored.
pub fn spread2_16(x0: u32) -> (r: u32)
    ensures
        spread2_16_rel(x0, r),
{
    //              0b00000000_00000000_11111111_11111111
    let x1 = ((x0 & 0b00000000_00000000_11111111_00000000) << 8) | (x0
        & 0b00000000_00000000_00000000_11111111);
    //              0b00000000_11111111_00000000_11111111
    let x2 = ((x1 & 0b00000000_11110000_00000000_11110000) << 4) | (x1
        & 0b00000000_00001111_00000000_00001111);
    //              0b00001111_00001111_00001111_00001111
    let x3 = ((x2 & 0b00001100_00001100_00001100_00001100) << 2) | (x2
        & 0b00000011_00000011_00000011_00000011);
    //              0b00110011_00110011_00110011_00110011
    let r = ((x3 & 0b00100010_00100010_00100010_00100010) << 1) | (x3
        & 0b00010001_00010001_00010001_00010001);
    //              0b01010101_01010101_01010101_01010101
    proof {
        assert(forall|i: u32| i < 32 ==> (#[trigger] bit32(r, i)) == (i % 2 == 0 && bit32(
            x0,
            i / 2,
        ))) by (bit_vector)
            requires
                x1 == ((x0 & 0x0000FF00) << 8) | (x0 & 0x000000FF),
                x2 == ((x1 & 0x00F000F0) << 4) | (x1 & 0x000F000F),
                x3 == ((x2 & 0x0C0C0C0C) << 2) | (x2 & 0x03030303),
                r == ((x3 & 0x22222222) << 1) | (x3 & 0x11111111),
        ;
    }
    r
}

/// Compact the even bits of `x0`: bit `2*i` of `x0` lands at bit `i` of the
/// result, whose high half is zero.  Odd bits of `x0` are ignored.
pub fn unspread2_16(x0: u32) -> (r: u32)
    ensures
        unspread2_16_rel(x0, r),
        r < 0x10000,
{
    //              0b01010101_01010101_01010101_01010101
    let x1 = ((x0 & 0b01000100_01000100_01000100_01000100) >> 1) | (x0
        & 0b00010001_00010001_00010001_00010001);
    //              0b00110011_00110011_00110011_00110011
    let x2 = ((x1 & 0b00110000_00110000_00110000_00110000) >> 2) | (x1
        & 0b00000011_00000011_00000011_00000011);
    //              0b00001111_00001111_00001111_00001111
    let x3 = ((x2 & 0b00001111_00000000_00001111_00000000) >> 4) | (x2
        & 0b00000000_00001111_00000000_00001111);
    //              0b00000000_11111111_00000000_11111111
    let r = ((x3 & 0b00000000_11111111_00000000_00000000) >> 8) | (x3
        & 0b00000000_00000000_00000000_11111111);
    //              0b00000000_00000000_11111111_11111111
    proof {
        assert((forall|i: u32| i < 32 ==> (#[trigger] bit32(r, i)) == (i < 16 && bit32(
            x0,
            (2 * i) as u32,
        ))) && r < 0x10000) by (bit_vector)
            requires
                x1 == ((x0 & 0x44444444) >> 1) | (x0 & 0x11111111),
                x2 == ((x1 & 0x30303030) >> 2) | (x1 & 0x03030303),
                x3 == ((x2 & 0x0F000F00) >> 4) | (x2 & 0x000F000F),
                r == ((x3 & 0x00FF0000) >> 8) | (x3 & 0x000000FF),
        ;
    }
    r
}

/// Spread the low 21 bits of `x` so bit `i` lands at bit `3*i`; all other
/// bits of the result are zero.  Bits 21 and above of `x` are ignored.
pub fn spread3_21(x: u32) -> (r: u64)
    ensures
        spread3_21_rel(x, r),
{
    // 0b0000000000000000000000000000000000000000000111111111111111111111
    // 0b0000000000000000000000011111111111000000000000000000001111111111
    // 0b0000000000000111111000000000011111000000000011111000000000011111
    // 0b0000000111000000111000011000000111000011000000111000011000000111
    // 0b0001000011001000011000011001000011000011001000011000011001000011
    // 0b0001001001001001001001001001001001001001001001001001001001001001
    let x0 = x as u64;
    let x1 = ((x0 & 0x00000000001FFC00) << 20) | (x0 & 0x00000000000003FF);
    let x2 = ((x1 & 0x000001F8000003E0) << 10) | (x1 & 0x00000007C000001F);
    let x3 = ((x2 & 0x00070006000C0018) << 6) | (x2 & 0x0000E001C0038007);
    let x4 = ((x3 & 0x0100800100020004) << 4) | (x3 & 0x00C06180C3018603);
    let r = ((x4 & 0x0080410082010402) << 2) | (x4 & 0x1048209041208241);
    proof {
        assert(forall|i: u64| i < 64 ==> (#[trigger] bit64(r, i)) == (i % 3 == 0 && i < 63
            && bit64(x as u64, i / 3))) by (bit_vector)
            requires
                x0 == x as u64,
                x1 == ((x0 & 0x00000000001FFC00) << 20) | (x0 & 0x00000000000003FF),
                x2 == ((x1 & 0x000001F8000003E0) << 10) | (x1 & 0x00000007C000001F),
                x3 == ((x2 & 0x00070006000C0018) << 6) | (x2 & 0x0000E001C0038007),
                x4 == ((x3 & 0x0100800100020004) << 4) | (x3 & 0x00C06180C3018603),
                r == ((x4 & 0x0080410082010402) << 2) | (x4 & 0x1048209041208241),
        ;
    }
    r
}

/// Compact the bits of `x0` that sit at multiples of three: bit `3*i` of
/// `x0` lands at bit `i` of the result, whose bits 21 and above are zero.
/// All other bits of `x0` are ignored.
pub fn unspread3_21(x0: u64) -> (r: u32)
    ensures
        unspread3_21_rel(x0, r),
        r < 0x200000,
{
    // 0b0001001001001001001001001001001001001001001001001001001001001001
    // 0b0001000011001000011000011001000011000011001000011000011001000011
    // 0b0000000111000000111000011000000111000011000000111000011000000111
    // 0b0000000000000111111000000000011111000000000011111000000000011111
    // 0b0000000000000000000000011111111111000000000000000000001111111111
    // 0b0000000000000000000000000000000000000000000111111111111111111111
    let x1 = ((x0 & 0x0201040208041008) >> 2) | (x0 & 0x1048209041208241);
    let x2 = ((x1 & 0x1008001000200040) >> 4) | (x1 & 0x00C06180C3018603);
    let x3 = ((x2 & 0x01C0018003000600) >> 6) | (x2 & 0x0000E001C0038007);
    let x4 = ((x3 & 0x0007E000000F8000) >> 10) | (x3 & 0x00000007C000001F);
    let r = (((x4 & 0x000001FFC0000000) >> 20) | (x4 & 0x00000000000003FF)) as u32;
    proof {
        assert((forall|i: u32| i < 32 ==> (#[trigger] bit32(r, i)) == (i < 21 && bit64(
            x0,
            (3 * i) as u64,
        ))) && r < 0x200000) by (bit_vector)
            requires
                x1 == ((x0 & 0x0201040208041008) >> 2) | (x0 & 0x1048209041208241),
                x2 == ((x1 & 0x1008001000200040) >> 4) | (x1 & 0x00C06180C3018603),
                x3 == ((x2 & 0x01C0018003000600) >> 6) | (x2 & 0x0000E001C0038007),
                x4 == ((x3 & 0x0007E000000F8000) >> 10) | (x3 & 0x00000007C000001F),
                r == (((x4 & 0x000001FFC0000000) >> 20) | (x4 & 0x00000000000003FF)) as u32,
        ;
    }
    r
}

/// Spread the low 5 bits of `x0` so bit `i` lands at bit `3*i`, filling a
/// 15-bit result.  Bits 5 and above of `x0` are ignored.
pub fn spread3_5(x0: u16) -> (r: u16)
    ensures
        spread3_5_rel(x0, r),
{
    // 0b0000000000011111
    let x1 = ((x0 & 0x0018) << 6) | (x0 & 0x0007);
    // 0b0000011000000111
    let x2 = ((x1 & 0x0004) << 4) | (x1 & 0x8603);
    // 0b0000011001000011
    let r = ((x2 & 0x0402) << 2) | (x2 & 0x8241);
    // 0b0001001001001001
    proof {
        assert(forall|i: u16| i < 16 ==> (#[trigger] bit16(r, i)) == (i % 3 == 0 && i < 15
            && bit16(x0, i / 3))) by (bit_vector)
            requires
                x1 == ((x0 & 0x0018) << 6) | (x0 & 0x0007),
                x2 == ((x1 & 0x0004) << 4) | (x1 & 0x8603),
                r == ((x2 & 0x0402) << 2) | (x2 & 0x8241),
        ;
    }
    r
}

/// A wide variant of `spread3_5`, spreading four 5-bit values held in the
/// four 16-bit lanes of `x0` at once.  Within each lane, bit `j` lands at
/// bit `3*j`; lane bits 5 and above are ignored.
pub fn spread3_5x4(x0: u64) -> (r: u64)
    ensures
        spread3_5x4_rel(x0, r),
{
    // 0b0000000000011111 0000000000011111 0000000000011111 0000000000011111
    let x1 = ((x0 & 0x0018001800180018) << 6) | (x0 & 0x0007000700070007);
    // 0b0000011000000111 0000011000000111 0000011000000111 0000011000000111
    let x2 = ((x1 & 0x0004000400040004) << 4) | (x1 & 0x8603860386038603);
    // 0b0000011001000011 0000011001000011 0000011001000011 0000011001000011
    let r = ((x2 & 0x0402040204020402) << 2) | (x2 & 0x8241824182418241);
    // 0b0001001001001001 0001001001001001 0001001001001001 0001001001001001
    proof {
        assert(forall|i: u64| i < 64 ==> (#[trigger] bit64(r, i)) == (i % 16 < 15 && (i % 16) % 3
            == 0 && bit64(x0, ((i / 16) * 16 + (i % 16) / 3) as u64))) by (bit_vector)
            requires
                x1 == ((x0 & 0x0018001800180018) << 6) | (x0 & 0x0007000700070007),
                x2 == ((x1 & 0x0004000400040004) << 4) | (x1 & 0x8603860386038603),
                r == ((x2 & 0x0402040204020402) << 2) | (x2 & 0x8241824182418241),
        ;
    }
    r
}

/// The compaction chain of `unspread2_16` as one spec-level expression: a
/// proof device that lets bit-vector reasoning carry a compacted value as
/// an explicit term.
pub(crate) open spec fn unspread2_16_chain(x0: u32) -> u32 {
    let x1 = ((x0 & 0x44444444) >> 1) | (x0 & 0x11111111);
    let x2 = ((x1 & 0x30303030) >> 2) | (x1 & 0x03030303);
    let x3 = ((x2 & 0x0F000F00) >> 4) | (x2 & 0x000F000F);
    ((x3 & 0x00FF0000) >> 8) | (x3 & 0x000000FF)
}

/// The spreading chain of `spread3_21` as one spec-level expression: a
/// proof device that lets bit-vector reasoning carry a spread value as an
/// explicit term.
pub(crate) open spec fn spread3_21_chain(x0: u64) -> u64 {
    let x1 = ((x0 & 0x00000000001FFC00) << 20) | (x0 & 0x00000000000003FF);
    let x2 = ((x1 & 0x000001F8000003E0) << 10) | (x1 & 0x00000007C000001F);
    let x3 = ((x2 & 0x00070006000C0018) << 6) | (x2 & 0x0000E001C0038007);
    let x4 = ((x3 & 0x0100800100020004) << 4) | (x3 & 0x00C06180C3018603);
    ((x4 & 0x0080410082010402) << 2) | (x4 & 0x1048209041208241)
}

/// The compaction chain of `unspread3_21` as one spec-level expression: a
/// proof device that lets bit-vector reasoning carry a compacted value as
/// an explicit term.
pub(crate) open spec fn unspread3_21_chain(x0: u64) -> u32 {
    let x1 = ((x0 & 0x0201040208041008) >> 2) | (x0 & 0x1048209041208241);
    let x2 = ((x1 & 0x1008001000200040) >> 4) | (x1 & 0x00C06180C3018603);
    let x3 = ((x2 & 0x01C0018003000600) >> 6) | (x2 & 0x0000E001C0038007);
    let x4 = ((x3 & 0x0007E000000F8000) >> 10) | (x3 & 0x00000007C000001F);
    (((x4 & 0x000001FFC0000000) >> 20) | (x4 & 0x00000000000003FF)) as u32
}

/// The chain and the function it mirrors satisfy the same bit relation.
pub(crate) proof fn lemma_unspread2_16_chain_rel(x: u32)
    ensures
        unspread2_16_rel(x, unspread2_16_chain(x)),
{
    assert(forall|i: u32| i < 32 ==> (#[trigger] bit32(unspread2_16_chain(x), i)) == (i < 16
        && bit32(x, (2 * i) as u32))) by (bit_vector);
}

/// The chain and the function it mirrors satisfy the same bit relation.
pub(crate) proof fn lemma_spread3_21_chain_rel(x: u32)
    ensures
        spread3_21_rel(x, spread3_21_chain(x as u64)),
{
    assert(forall|i: u64| i < 64 ==> (#[trigger] bit64(spread3_21_chain(x as u64), i)) == (i % 3
        == 0 && i < 63 && bit64(x as u64, i / 3))) by (bit_vector);
}

/// The chain and the function it mirrors satisfy the same bit relation.
pub(crate) proof fn lemma_unspread3_21_chain_rel(x: u64)
    ensures
        unspread3_21_rel(x, unspread3_21_chain(x)),
{
    assert(forall|i: u32| i < 32 ==> (#[trigger] bit32(unspread3_21_chain(x), i)) == (i < 21
        && bit64(x, (3 * i) as u64))) by (bit_vector);
}

} // verus!
