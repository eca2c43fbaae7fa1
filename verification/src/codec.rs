//! Axis mask constants and the encode/decode routines.
//!
//! An encoder spreads each coordinate and ORs the spread values together,
//! each shifted by its axis index; a decoder masks one axis's bits out of
//! the code and compacts them back into a contiguous coordinate.
//!
//! Naming convention is `(morton|unmorton)(DIM)d(SIZE)`, where `DIM` is the
//! number of axes and `SIZE` is the total number of bits of the format.

use vstd::prelude::*;

use crate::bits::{bit32, bit64, lemma_bit32_ext, lemma_bit64_ext};
use crate::spread::{
    lemma_spread3_21_chain_rel, lemma_unspread3_21_chain_rel, spread2_16, spread2_16_rel,
    spread3_21, spread3_21_chain, spread3_21_rel, unspread2_16, unspread2_16_rel, unspread3_21,
    unspread3_21_chain, unspread3_21_rel,
};

verus! {

/// 16.16-bit format: even bits hold x.
pub const MORTON2_16_X: u32 = 0x55555555;

/// 16.16-bit format: odd bits hold y.
pub const MORTON2_16_Y: u32 = 0xAAAAAAAA;

/// All bits the 16.16-bit format occupies.
pub const MORTON2_16_MASK: u32 = 0xFFFFFFFF;

/// 21.21.21-bit format: bits at multiples of three hold x.
pub const MORTON3_21_X: u64 = 0x1249249249249249;

/// 21.21.21-bit format: the y bits, one position above the x bits.
pub const MORTON3_21_Y: u64 = 0x2492492492492492;

/// 21.21.21-bit format: the z bits, two positions above the x bits.
pub const MORTON3_21_Z: u64 = 0x4924924924924924;

/// All bits the 21.21.21-bit format occupies.
pub const MORTON3_21_MASK: u64 = 0x7FFFFFFFFFFFFFFF;

/// 7.7.7-bit format: bits at multiples of three hold x.
pub const MORTON3_7_X: u32 = 0x00049249;

/// 7.7.7-bit format: the y bits, one position above the x bits.
pub const MORTON3_7_Y: u32 = 0x00092492;

/// 7.7.7-bit format: the z bits, two positions above the x bits.
pub const MORTON3_7_Z: u32 = 0x00124924;

/// All bits the 7.7.7-bit format occupies.
pub const MORTON3_7_MASK: u32 = 0x001FFFFF;

/// 5.5.5-bit format: bits at multiples of three hold x.
pub const MORTON3_5_X: u16 = 0x1249;

/// 5.5.5-bit format: the y bits, one position above the x bits.
pub const MORTON3_5_Y: u16 = 0x2492;

/// 5.5.5-bit format: the z bits, two positions above the x bits.
pub const MORTON3_5_Z: u16 = 0x4924;

/// All bits the 5.5.5-bit format occupies.
pub const MORTON3_5_MASK: u16 = 0x7FFF;

/// `m` interleaves `x` and `y`: bit `2*i` of `m` is bit `i` of `x`, bit
/// `2*i + 1` of `m` is bit `i` of `y`, for the low 16 bits of each.
pub open spec fn morton2d32_rel(x: u32, y: u32, m: u32) -> bool {
    forall|i: u32| i < 32 ==> (#[trigger] bit32(m, i)) == (if i % 2 == 0 {
        bit32(x, i / 2)
    } else {
        bit32(y, i / 2)
    })
}

/// `cx` and `cy` are the two de-interleaved coordinates of `m`: bit `i` of
/// `cx` is bit `2*i` of `m`, bit `i` of `cy` is bit `2*i + 1` of `m`, and
/// the high half of each coordinate is zero.
pub open spec fn unmorton2d32_rel(m: u32, cx: u32, cy: u32) -> bool {
    &&& forall|i: u32| i < 32 ==> (#[trigger] bit32(cx, i)) == (i < 16 && bit32(m, (2 * i) as u32))
    &&& forall|i: u32| i < 32 ==> (#[trigger] bit32(cy, i)) == (i < 16 && bit32(
        m,
        (2 * i + 1) as u32,
    ))
}

/// `m` interleaves `x`, `y` and `z`: bit `3*i` of `m` is bit `i` of `x`,
/// bit `3*i + 1` is bit `i` of `y`, bit `3*i + 2` is bit `i` of `z`, for
/// the low 21 bits of each, and bit 63 of `m` is zero.
pub open spec fn morton3d63_rel(x: u32, y: u32, z: u32, m: u64) -> bool {
    forall|i: u64| i < 64 ==> (#[trigger] bit64(m, i)) == (i < 63 && if i % 3 == 0 {
        bit64(x as u64, i / 3)
    } else if i % 3 == 1 {
        bit64(y as u64, i / 3)
    } else {
        bit64(z as u64, i / 3)
    })
}

/// `cx`, `cy` and `cz` are the three de-interleaved coordinates of `m`:
/// bit `i` of `cx` is bit `3*i` of `m`, bit `i` of `cy` is bit `3*i + 1`,
/// bit `i` of `cz` is bit `3*i + 2`, and bits 21 and above of each
/// coordinate are zero.
pub open spec fn unmorton3d63_rel(m: u64, cx: u32, cy: u32, cz: u32) -> bool {
    &&& forall|i: u32| i < 32 ==> (#[trigger] bit32(cx, i)) == (i < 21 && bit64(m, (3 * i) as u64))
    &&& forall|i: u32| i < 32 ==> (#[trigger] bit32(cy, i)) == (i < 21 && bit64(
        m,
        (3 * i + 1) as u64,
    ))
    &&& forall|i: u32| i < 32 ==> (#[trigger] bit32(cz, i)) == (i < 21 && bit64(
        m,
        (3 * i + 2) as u64,
    ))
}

/// `m` interleaves the 7-bit coordinates `x`, `y` and `z`: bit `3*i` of
/// `m` is bit `i` of `x`, bit `3*i + 1` is bit `i` of `y`, bit `3*i + 2`
/// is bit `i` of `z`, and bits 21 and above of `m` are zero.
pub open spec fn morton3d21_rel(x: u32, y: u32, z: u32, m: u32) -> bool {
    forall|i: u32| i < 32 ==> (#[trigger] bit32(m, i)) == (i < 21 && if i % 3 == 0 {
        bit32(x, i / 3)
    } else if i % 3 == 1 {
        bit32(y, i / 3)
    } else {
        bit32(z, i / 3)
    })
}

/// `cx`, `cy` and `cz` are the three de-interleaved 7-bit coordinates of
/// `m`: bit `i` of `cx` is bit `3*i` of `m`, bit `i` of `cy` is bit
/// `3*i + 1`, bit `i` of `cz` is bit `3*i + 2`, and bits 7 and above of
/// each coordinate are zero.
pub open spec fn unmorton3d21_rel(m: u32, cx: u32, cy: u32, cz: u32) -> bool {
    &&& forall|i: u32| i < 32 ==> (#[trigger] bit32(cx, i)) == (i < 7 && bit32(m, (3 * i) as u32))
    &&& forall|i: u32| i < 32 ==> (#[trigger] bit32(cy, i)) == (i < 7 && bit32(
        m,
        (3 * i + 1) as u32,
    ))
    &&& forall|i: u32| i < 32 ==> (#[trigger] bit32(cz, i)) == (i < 7 && bit32(
        m,
        (3 * i + 2) as u32,
    ))
}

/// Generate a 16.16-bit Morton code: x in the even bits, y in the odd
/// bits.  Bits 16 and above of either coordinate are ignored.
pub fn morton2d32(x: u32, y: u32) -> (r: u32)
    ensures
        morton2d32_rel(x, y, r),
{
    let sx = spread2_16(x);
    let sy = spread2_16(y);
    let r = sx | (sy << 1);
    proof {
        assert forall|i: u32| i < 32 implies (#[trigger] bit32(r, i)) == (if i % 2 == 0 {
            bit32(x, i / 2)
        } else {
            bit32(y, i / 2)
        }) by {
            assert(bit32(r, i) == (if i % 2 == 0 {
                bit32(x, i / 2)
            } else {
                bit32(y, i / 2)
            })) by (bit_vector)
                requires
                    i < 32,
                    r == sx | (sy << 1),
                    bit32(sx, i) == (i % 2 == 0 && bit32(x, i / 2)),
                    i >= 1 ==> bit32(sy, ((i - 1) as u32)) == (((i - 1) as u32) % 2 == 0 && bit32(
                        y,
                        ((i - 1) as u32) / 2,
                    )),
            ;
        }
    }
    r
}

/// Split a 16.16-bit Morton code back into its two coordinates.
pub fn unmorton2d32(m: u32) -> (r: (u32, u32))
    ensures
        unmorton2d32_rel(m, r.0, r.1),
        r.0 < 0x10000,
        r.1 < 0x10000,
{
    let cx = unspread2_16(m & MORTON2_16_X);
    let cy = unspread2_16((m & MORTON2_16_Y) >> 1);
    proof {
        let mx = m & MORTON2_16_X;
        let my = (m & MORTON2_16_Y) >> 1;
        assert forall|i: u32| i < 32 implies (#[trigger] bit32(cx, i)) == (i < 16 && bit32(
            m,
            (2 * i) as u32,
        )) by {
            assert(bit32(cx, i) == (i < 16 && bit32(m, (2 * i) as u32))) by (bit_vector)
                requires
                    i < 32,
                    mx == m & 0x55555555,
                    bit32(cx, i) == (i < 16 && bit32(mx, (2 * i) as u32)),
            ;
        }
        assert forall|i: u32| i < 32 implies (#[trigger] bit32(cy, i)) == (i < 16 && bit32(
            m,
            (2 * i + 1) as u32,
        )) by {
            assert(bit32(cy, i) == (i < 16 && bit32(m, (2 * i + 1) as u32))) by (bit_vector)
                requires
                    i < 32,
                    my == (m & 0xAAAAAAAA) >> 1,
                    bit32(cy, i) == (i < 16 && bit32(my, (2 * i) as u32)),
            ;
        }
    }
    (cx, cy)
}

/// Generate a 21.21.21-bit Morton code: bit `3*i` holds bit `i` of x,
/// bit `3*i + 1` bit `i` of y, bit `3*i + 2` bit `i` of z.  Bits 21 and
/// above of any coordinate are ignored.
pub fn morton3d63(x: u32, y: u32, z: u32) -> (r: u64)
    ensures
        morton3d63_rel(x, y, z, r),
        r < 0x8000000000000000,
{
    let sx = spread3_21(x);
    let sy = spread3_21(y);
    let sz = spread3_21(z);
    let r = sx | (sy << 1) | (sz << 2);
    proof {
        assert forall|i: u64| i < 64 implies (#[trigger] bit64(r, i)) == (i < 63 && if i % 3 == 0 {
            bit64(x as u64, i / 3)
        } else if i % 3 == 1 {
            bit64(y as u64, i / 3)
        } else {
            bit64(z as u64, i / 3)
        }) by {
            assert(bit64(r, i) == (i < 63 && if i % 3 == 0 {
                bit64(x as u64, i / 3)
            } else if i % 3 == 1 {
                bit64(y as u64, i / 3)
            } else {
                bit64(z as u64, i / 3)
            })) by (bit_vector)
                requires
                    i < 64,
                    r == sx | (sy << 1) | (sz << 2),
                    bit64(sx, i) == (i % 3 == 0 && i < 63 && bit64(x as u64, i / 3)),
                    i >= 1 ==> bit64(sy, ((i - 1) as u64)) == (((i - 1) as u64) % 3 == 0 && ((i
                        - 1) as u64) < 63 && bit64(y as u64, ((i - 1) as u64) / 3)),
                    i >= 2 ==> bit64(sz, ((i - 2) as u64)) == (((i - 2) as u64) % 3 == 0 && ((i
                        - 2) as u64) < 63 && bit64(z as u64, ((i - 2) as u64) / 3)),
            ;
        }
        assert(!bit64(r, 63));
        assert(r < 0x8000000000000000) by (bit_vector)
            requires
                !((r >> 63) & 1 == 1),
        ;
    }
    r
}

/// Split a 21.21.21-bit Morton code back into its three coordinates, each
/// bounded to 21 bits.
pub fn unmorton3d63(m: u64) -> (r: (u32, u32, u32))
    ensures
        unmorton3d63_rel(m, r.0, r.1, r.2),
        r.0 < 0x200000,
        r.1 < 0x200000,
        r.2 < 0x200000,
{
    let cx = unspread3_21(m & MORTON3_21_X);
    let cy = unspread3_21((m & MORTON3_21_Y) >> 1);
    let cz = unspread3_21((m & MORTON3_21_Z) >> 2);
    proof {
        let mx = m & MORTON3_21_X;
        let my = (m & MORTON3_21_Y) >> 1;
        let mz = (m & MORTON3_21_Z) >> 2;
        assert forall|i: u32| i < 32 implies (#[trigger] bit32(cx, i)) == (i < 21 && bit64(
            m,
            (3 * i) as u64,
        )) by {
            assert(bit32(cx, i) == (i < 21 && bit64(m, (3 * i) as u64))) by (bit_vector)
                requires
                    i < 32,
                    mx == m & 0x1249249249249249,
                    bit32(cx, i) == (i < 21 && bit64(mx, (3 * i) as u64)),
            ;
        }
        assert forall|i: u32| i < 32 implies (#[trigger] bit32(cy, i)) == (i < 21 && bit64(
            m,
            (3 * i + 1) as u64,
        )) by {
            assert(bit32(cy, i) == (i < 21 && bit64(m, (3 * i + 1) as u64))) by (bit_vector)
                requires
                    i < 32,
                    my == (m & 0x2492492492492492) >> 1,
                    bit32(cy, i) == (i < 21 && bit64(my, (3 * i) as u64)),
            ;
        }
        assert forall|i: u32| i < 32 implies (#[trigger] bit32(cz, i)) == (i < 21 && bit64(
            m,
            (3 * i + 2) as u64,
        )) by {
            assert(bit32(cz, i) == (i < 21 && bit64(m, (3 * i + 2) as u64))) by (bit_vector)
                requires
                    i < 32,
                    mz == (m & 0x4924924924924924) >> 2,
                    bit32(cz, i) == (i < 21 && bit64(mz, (3 * i) as u64)),
            ;
        }
    }
    (cx, cy, cz)
}

/// Generate a 7.7.7-bit Morton code.  The three coordinates are packed
/// into one word, spread simultaneously by the 21-bit spreader, and the
/// three 21-bit thirds of the spread value are folded together.
pub fn morton3d21(x: u32, y: u32, z: u32) -> (r: u32)
    requires
        x < 128,
        y < 128,
        z < 128,
    ensures
        morton3d21_rel(x, y, z, r),
        r < 0x200000,
{
    let packed = (z << 14) | (y << 7) | x;
    let tmp = spread3_21(packed);
    let r = (((tmp >> 40) | (tmp >> 20) | tmp) & 0x1FFFFF) as u32;
    proof {
        lemma_spread3_21_chain_rel(packed);
        assert forall|i: u64| i < 64 implies (#[trigger] bit64(tmp, i)) == bit64(
            spread3_21_chain(packed as u64),
            i,
        ) by {}
        lemma_bit64_ext(tmp, spread3_21_chain(packed as u64));
        assert((forall|i: u32| i < 32 ==> (#[trigger] bit32(r, i)) == (i < 21 && if i % 3 == 0 {
            bit32(x, i / 3)
        } else if i % 3 == 1 {
            bit32(y, i / 3)
        } else {
            bit32(z, i / 3)
        })) && r < 0x200000) by (bit_vector)
            requires
                x < 128,
                y < 128,
                z < 128,
                packed == (z << 14) | (y << 7) | x,
                tmp == spread3_21_chain(packed as u64),
                r == (((tmp >> 40) | (tmp >> 20) | tmp) & 0x1FFFFF) as u32,
        ;
    }
    r
}

/// Split a 7.7.7-bit Morton code back into its three coordinates, each
/// bounded to 7 bits.  The three axes are compacted simultaneously: each
/// axis's bits are lifted to a distinct 21-bit third of one word, which is
/// compacted once.
pub fn unmorton3d21(m: u32) -> (r: (u32, u32, u32))
    ensures
        unmorton3d21_rel(m, r.0, r.1, r.2),
        r.0 < 128,
        r.1 < 128,
        r.2 < 128,
{
    let m64 = m as u64;
    let w = (m64 & (MORTON3_7_X as u64)) | ((m64 & (MORTON3_7_Y as u64)) << 20) | ((m64 & (
    MORTON3_7_Z as u64)) << 40);
    let tmp = unspread3_21(w);
    let cx = tmp & 0x7F;
    let cy = (tmp >> 7) & 0x7F;
    let cz = (tmp >> 14) & 0x7F;
    proof {
        lemma_unspread3_21_chain_rel(w);
        assert forall|i: u32| i < 32 implies (#[trigger] bit32(tmp, i)) == bit32(
            unspread3_21_chain(w),
            i,
        ) by {}
        lemma_bit32_ext(tmp, unspread3_21_chain(w));
        assert((forall|i: u32| i < 32 ==> (#[trigger] bit32(cx, i)) == (i < 7 && bit32(
            m,
            (3 * i) as u32,
        ))) && (forall|i: u32| i < 32 ==> (#[trigger] bit32(cy, i)) == (i < 7 && bit32(
            m,
            (3 * i + 1) as u32,
        ))) && (forall|i: u32| i < 32 ==> (#[trigger] bit32(cz, i)) == (i < 7 && bit32(
            m,
            (3 * i + 2) as u32,
        ))) && cx < 128 && cy < 128 && cz < 128) by (bit_vector)
            requires
                m64 == m as u64,
                w == (m64 & (MORTON3_7_X as u64)) | ((m64 & (MORTON3_7_Y as u64)) << 20) | ((m64
                    & (MORTON3_7_Z as u64)) << 40),
                tmp == unspread3_21_chain(w),
                cx == tmp & 0x7F,
                cy == (tmp >> 7) & 0x7F,
                cz == (tmp >> 14) & 0x7F,
        ;
    }
    (cx, cy, cz)
}

} // verus!
