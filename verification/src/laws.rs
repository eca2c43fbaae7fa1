//! The format-level laws of the encoding, each stated over the bit
//! relations that the executable functions' contracts establish: mask
//! partitioning, per-axis isolation of the masked arithmetic, the
//! encode/decode round trips, and the consistency of the masked
//! comparisons with the decoded coordinates.

use vstd::prelude::*;

use crate::bits::{bit32, bit64, lemma_bit32_ext};
use crate::spread::{lemma_unspread3_21_chain_rel, unspread3_21_chain};
use crate::codec::{
    morton2d32_rel, morton3d21_rel, morton3d63_rel, unmorton2d32_rel, unmorton3d21_rel,
    unmorton3d63_rel, MORTON2_16_MASK, MORTON2_16_X, MORTON2_16_Y, MORTON3_21_MASK, MORTON3_21_X,
    MORTON3_21_Y, MORTON3_21_Z, MORTON3_5_MASK, MORTON3_5_X, MORTON3_5_Y, MORTON3_5_Z,
    MORTON3_7_MASK, MORTON3_7_X, MORTON3_7_Y, MORTON3_7_Z,
};
use crate::spread::{
    lemma_unspread2_16_chain_rel, spread2_16_rel, spread3_21_rel, unspread2_16_chain,
    unspread2_16_rel, unspread3_21_rel,
};

verus! {

/// Mask partition, 16.16-bit format: the two axis masks are disjoint,
/// each is the base pattern shifted by its axis index, and together they
/// cover every bit the format occupies.
pub proof fn lemma_mask_partition_2d32()
    ensures
        MORTON2_16_X & MORTON2_16_Y == 0,
        MORTON2_16_X | MORTON2_16_Y == MORTON2_16_MASK,
        MORTON2_16_Y == MORTON2_16_X << 1,
{
    assert(MORTON2_16_X & MORTON2_16_Y == 0 && MORTON2_16_X | MORTON2_16_Y == MORTON2_16_MASK
        && MORTON2_16_Y == MORTON2_16_X << 1) by (bit_vector);
}

/// Mask partition, 21.21.21-bit format: the three axis masks are pairwise
/// disjoint, each is the base pattern shifted by its axis index, and
/// together they cover every bit the format occupies.
pub proof fn lemma_mask_partition_3d63()
    ensures
        MORTON3_21_X & MORTON3_21_Y == 0,
        MORTON3_21_X & MORTON3_21_Z == 0,
        MORTON3_21_Y & MORTON3_21_Z == 0,
        MORTON3_21_X | MORTON3_21_Y | MORTON3_21_Z == MORTON3_21_MASK,
        MORTON3_21_Y == MORTON3_21_X << 1,
        MORTON3_21_Z == MORTON3_21_X << 2,
{
    assert(MORTON3_21_X & MORTON3_21_Y == 0 && MORTON3_21_X & MORTON3_21_Z == 0 && MORTON3_21_Y
        & MORTON3_21_Z == 0 && MORTON3_21_X | MORTON3_21_Y | MORTON3_21_Z == MORTON3_21_MASK
        && MORTON3_21_Y == MORTON3_21_X << 1 && MORTON3_21_Z == MORTON3_21_X << 2) by (bit_vector);
}

/// Mask partition, 7.7.7-bit format: the three axis masks are pairwise
/// disjoint, each is the base pattern shifted by its axis index, and
/// together they cover every bit the format occupies.
pub proof fn lemma_mask_partition_3d21()
    ensures
        MORTON3_7_X & MORTON3_7_Y == 0,
        MORTON3_7_X & MORTON3_7_Z == 0,
        MORTON3_7_Y & MORTON3_7_Z == 0,
        MORTON3_7_X | MORTON3_7_Y | MORTON3_7_Z == MORTON3_7_MASK,
        MORTON3_7_Y == MORTON3_7_X << 1,
        MORTON3_7_Z == MORTON3_7_X << 2,
{
    assert(MORTON3_7_X & MORTON3_7_Y == 0 && MORTON3_7_X & MORTON3_7_Z == 0 && MORTON3_7_Y
        & MORTON3_7_Z == 0 && MORTON3_7_X | MORTON3_7_Y | MORTON3_7_Z == MORTON3_7_MASK
        && MORTON3_7_Y == MORTON3_7_X << 1 && MORTON3_7_Z == MORTON3_7_X << 2) by (bit_vector);
}

/// Mask partition, 5.5.5-bit format: the three axis masks are pairwise
/// disjoint, each is the base pattern shifted by its axis index, and
/// together they cover every bit the format occupies.
pub proof fn lemma_mask_partition_3d15()
    ensures
        MORTON3_5_X & MORTON3_5_Y == 0,
        MORTON3_5_X & MORTON3_5_Z == 0,
        MORTON3_5_Y & MORTON3_5_Z == 0,
        MORTON3_5_X | MORTON3_5_Y | MORTON3_5_Z == MORTON3_5_MASK,
        MORTON3_5_Y == MORTON3_5_X << 1,
        MORTON3_5_Z == MORTON3_5_X << 2,
{
    assert(MORTON3_5_X & MORTON3_5_Y == 0 && MORTON3_5_X & MORTON3_5_Z == 0 && MORTON3_5_Y
        & MORTON3_5_Z == 0 && MORTON3_5_X | MORTON3_5_Y | MORTON3_5_Z == MORTON3_5_MASK
        && MORTON3_5_Y == MORTON3_5_X << 1 && MORTON3_5_Z == MORTON3_5_X << 2) by (bit_vector);
}

/// Axis isolation: an operation that leaves every bit outside the mask
/// `da` unchanged — as the masked increment and decrement promise — leaves
/// the bits of any disjoint mask `db` unchanged, so stepping one axis
/// never alters another axis's field.
pub proof fn lemma_axis_isolation32(m: u32, r: u32, da: u32, db: u32)
    requires
        r & !da == m & !da,
        da & db == 0,
    ensures
        r & db == m & db,
{
    assert(r & db == m & db) by (bit_vector)
        requires
            r & !da == m & !da,
            da & db == 0,
    ;
}

/// Axis isolation: an operation that leaves every bit outside the mask
/// `da` unchanged — as the masked increment and decrement promise — leaves
/// the bits of any disjoint mask `db` unchanged, so stepping one axis
/// never alters another axis's field.
pub proof fn lemma_axis_isolation64(m: u64, r: u64, da: u64, db: u64)
    requires
        r & !da == m & !da,
        da & db == 0,
    ensures
        r & db == m & db,
{
    assert(r & db == m & db) by (bit_vector)
        requires
            r & !da == m & !da,
            da & db == 0,
    ;
}

/// Round trip of the 2-way spread: compacting the spread of any value that
/// fits the 16-bit budget returns that value.
pub proof fn lemma_spread2_16_roundtrip(x: u32, s: u32, u: u32)
    requires
        x < 0x10000,
        spread2_16_rel(x, s),
        unspread2_16_rel(s, u),
    ensures
        u == x,
{
    assert forall|i: u32| i < 32 implies bit32(u, i) == bit32(x, i) by {
        assert(bit32(u, i) == bit32(x, i)) by (bit_vector)
            requires
                i < 32,
                x < 0x10000,
                bit32(u, i) == (i < 16 && bit32(s, (2 * i) as u32)),
                i < 16 ==> bit32(s, (2 * i) as u32) == (((2 * i) as u32) % 2 == 0 && bit32(
                    x,
                    ((2 * i) as u32) / 2,
                )),
        ;
    }
    lemma_bit32_ext(u, x);
}

/// Round trip of the 3-way spread: compacting the spread of any value that
/// fits the 21-bit budget returns that value.
pub proof fn lemma_spread3_21_roundtrip(x: u32, s: u64, u: u32)
    requires
        x < 0x200000,
        spread3_21_rel(x, s),
        unspread3_21_rel(s, u),
    ensures
        u == x,
{
    assert forall|i: u32| i < 32 implies bit32(u, i) == bit32(x, i) by {
        assert(bit32(u, i) == bit32(x, i)) by (bit_vector)
            requires
                i < 32,
                x < 0x200000,
                bit32(u, i) == (i < 21 && bit64(s, (3 * i) as u64)),
                i < 21 ==> bit64(s, (3 * i) as u64) == (((3 * i) as u64) % 3 == 0 && ((3
                    * i) as u64) < 63 && bit64(x as u64, ((3 * i) as u64) / 3)),
        ;
    }
    lemma_bit32_ext(u, x);
}

/// Round trip of the 16.16-bit format: decoding an encoded pair of
/// coordinates within the 16-bit budget returns exactly that pair.
pub proof fn lemma_morton2d32_roundtrip(x: u32, y: u32, m: u32, cx: u32, cy: u32)
    requires
        x < 0x10000,
        y < 0x10000,
        morton2d32_rel(x, y, m),
        unmorton2d32_rel(m, cx, cy),
    ensures
        cx == x,
        cy == y,
{
    assert forall|i: u32| i < 32 implies bit32(cx, i) == bit32(x, i) by {
        assert(bit32(cx, i) == bit32(x, i)) by (bit_vector)
            requires
                i < 32,
                x < 0x10000,
                bit32(cx, i) == (i < 16 && bit32(m, (2 * i) as u32)),
                i < 16 ==> bit32(m, (2 * i) as u32) == (if ((2 * i) as u32) % 2 == 0 {
                    bit32(x, ((2 * i) as u32) / 2)
                } else {
                    bit32(y, ((2 * i) as u32) / 2)
                }),
        ;
    }
    lemma_bit32_ext(cx, x);
    assert forall|i: u32| i < 32 implies bit32(cy, i) == bit32(y, i) by {
        assert(bit32(cy, i) == bit32(y, i)) by (bit_vector)
            requires
                i < 32,
                y < 0x10000,
                bit32(cy, i) == (i < 16 && bit32(m, (2 * i + 1) as u32)),
                i < 16 ==> bit32(m, (2 * i + 1) as u32) == (if ((2 * i + 1) as u32) % 2 == 0 {
                    bit32(x, ((2 * i + 1) as u32) / 2)
                } else {
                    bit32(y, ((2 * i + 1) as u32) / 2)
                }),
        ;
    }
    lemma_bit32_ext(cy, y);
}

/// Round trip of the 21.21.21-bit format: decoding an encoded triple of
/// coordinates within the 21-bit budget returns exactly that triple.
pub proof fn lemma_morton3d63_roundtrip(
    x: u32,
    y: u32,
    z: u32,
    m: u64,
    cx: u32,
    cy: u32,
    cz: u32,
)
    requires
        x < 0x200000,
        y < 0x200000,
        z < 0x200000,
        morton3d63_rel(x, y, z, m),
        unmorton3d63_rel(m, cx, cy, cz),
    ensures
        cx == x,
        cy == y,
        cz == z,
{
    assert forall|i: u32| i < 32 implies bit32(cx, i) == bit32(x, i) by {
        assert(bit32(cx, i) == bit32(x, i)) by (bit_vector)
            requires
                i < 32,
                x < 0x200000,
                bit32(cx, i) == (i < 21 && bit64(m, (3 * i) as u64)),
                i < 21 ==> bit64(m, (3 * i) as u64) == (((3 * i) as u64) < 63 && if ((3
                    * i) as u64) % 3 == 0 {
                    bit64(x as u64, ((3 * i) as u64) / 3)
                } else if ((3 * i) as u64) % 3 == 1 {
                    bit64(y as u64, ((3 * i) as u64) / 3)
                } else {
                    bit64(z as u64, ((3 * i) as u64) / 3)
                }),
        ;
    }
    lemma_bit32_ext(cx, x);
    assert forall|i: u32| i < 32 implies bit32(cy, i) == bit32(y, i) by {
        assert(bit32(cy, i) == bit32(y, i)) by (bit_vector)
            requires
                i < 32,
                y < 0x200000,
                bit32(cy, i) == (i < 21 && bit64(m, (3 * i + 1) as u64)),
                i < 21 ==> bit64(m, (3 * i + 1) as u64) == (((3 * i + 1) as u64) < 63 && if ((3 * i
                    + 1) as u64) % 3 == 0 {
                    bit64(x as u64, ((3 * i + 1) as u64) / 3)
                } else if ((3 * i + 1) as u64) % 3 == 1 {
                    bit64(y as u64, ((3 * i + 1) as u64) / 3)
                } else {
                    bit64(z as u64, ((3 * i + 1) as u64) / 3)
                }),
        ;
    }
    lemma_bit32_ext(cy, y);
    assert forall|i: u32| i < 32 implies bit32(cz, i) == bit32(z, i) by {
        assert(bit32(cz, i) == bit32(z, i)) by (bit_vector)
            requires
                i < 32,
                z < 0x200000,
                bit32(cz, i) == (i < 21 && bit64(m, (3 * i + 2) as u64)),
                i < 21 ==> bit64(m, (3 * i + 2) as u64) == (((3 * i + 2) as u64) < 63 && if ((3 * i
                    + 2) as u64) % 3 == 0 {
                    bit64(x as u64, ((3 * i + 2) as u64) / 3)
                } else if ((3 * i + 2) as u64) % 3 == 1 {
                    bit64(y as u64, ((3 * i + 2) as u64) / 3)
                } else {
                    bit64(z as u64, ((3 * i + 2) as u64) / 3)
                }),
        ;
    }
    lemma_bit32_ext(cz, z);
}

/// Round trip of the 7.7.7-bit format: decoding an encoded triple of
/// coordinates within the 7-bit budget returns exactly that triple.
pub proof fn lemma_morton3d21_roundtrip(
    x: u32,
    y: u32,
    z: u32,
    m: u32,
    cx: u32,
    cy: u32,
    cz: u32,
)
    requires
        x < 128,
        y < 128,
        z < 128,
        morton3d21_rel(x, y, z, m),
        unmorton3d21_rel(m, cx, cy, cz),
    ensures
        cx == x,
        cy == y,
        cz == z,
{
    assert forall|i: u32| i < 32 implies bit32(cx, i) == bit32(x, i) by {
        assert(bit32(cx, i) == bit32(x, i)) by (bit_vector)
            requires
                i < 32,
                x < 128,
                bit32(cx, i) == (i < 7 && bit32(m, (3 * i) as u32)),
                i < 7 ==> bit32(m, (3 * i) as u32) == (((3 * i) as u32) < 21 && if ((3
                    * i) as u32) % 3 == 0 {
                    bit32(x, ((3 * i) as u32) / 3)
                } else if ((3 * i) as u32) % 3 == 1 {
                    bit32(y, ((3 * i) as u32) / 3)
                } else {
                    bit32(z, ((3 * i) as u32) / 3)
                }),
        ;
    }
    lemma_bit32_ext(cx, x);
    assert forall|i: u32| i < 32 implies bit32(cy, i) == bit32(y, i) by {
        assert(bit32(cy, i) == bit32(y, i)) by (bit_vector)
            requires
                i < 32,
                y < 128,
                bit32(cy, i) == (i < 7 && bit32(m, (3 * i + 1) as u32)),
                i < 7 ==> bit32(m, (3 * i + 1) as u32) == (((3 * i + 1) as u32) < 21 && if ((3 * i
                    + 1) as u32) % 3 == 0 {
                    bit32(x, ((3 * i + 1) as u32) / 3)
                } else if ((3 * i + 1) as u32) % 3 == 1 {
                    bit32(y, ((3 * i + 1) as u32) / 3)
                } else {
                    bit32(z, ((3 * i + 1) as u32) / 3)
                }),
        ;
    }
    lemma_bit32_ext(cy, y);
    assert forall|i: u32| i < 32 implies bit32(cz, i) == bit32(z, i) by {
        assert(bit32(cz, i) == bit32(z, i)) by (bit_vector)
            requires
                i < 32,
                z < 128,
                bit32(cz, i) == (i < 7 && bit32(m, (3 * i + 2) as u32)),
                i < 7 ==> bit32(m, (3 * i + 2) as u32) == (((3 * i + 2) as u32) < 21 && if ((3 * i
                    + 2) as u32) % 3 == 0 {
                    bit32(x, ((3 * i + 2) as u32) / 3)
                } else if ((3 * i + 2) as u32) % 3 == 1 {
                    bit32(y, ((3 * i + 2) as u32) / 3)
                } else {
                    bit32(z, ((3 * i + 2) as u32) / 3)
                }),
        ;
    }
    lemma_bit32_ext(cz, z);
}

/// In an interleaved word, the even bits of `w` shifted down by one are
/// the odd bits of `w`.
proof fn lemma_shift1_even_bits32(w: u32)
    ensures
        forall|i: u32| i < 16 ==> #[trigger] bit32(w >> 1, (2 * i) as u32) == bit32(
            w,
            (2 * i + 1) as u32,
        ),
{
    assert(forall|i: u32| i < 16 ==> #[trigger] bit32(w >> 1, (2 * i) as u32) == bit32(
        w,
        (2 * i + 1) as u32,
    )) by (bit_vector);
}

/// Comparison consistency, 16.16-bit format: comparing two codes masked to
/// one axis orders them exactly as the decoded coordinates of that axis
/// do, which justifies the masked comparison predicates.
pub proof fn lemma_compare_consistent_2d32(l: u32, r: u32, lx: u32, ly: u32, rx: u32, ry: u32)
    requires
        unmorton2d32_rel(l, lx, ly),
        unmorton2d32_rel(r, rx, ry),
    ensures
        ((l & MORTON2_16_X) < (r & MORTON2_16_X)) == (lx < rx),
        ((l & MORTON2_16_Y) < (r & MORTON2_16_Y)) == (ly < ry),
{
    lemma_unspread2_16_chain_rel(l);
    lemma_unspread2_16_chain_rel(r);
    lemma_unspread2_16_chain_rel(l >> 1);
    lemma_unspread2_16_chain_rel(r >> 1);
    lemma_shift1_even_bits32(l);
    lemma_shift1_even_bits32(r);
    assert forall|i: u32| i < 32 implies bit32(lx, i) == bit32(unspread2_16_chain(l), i) by {}
    lemma_bit32_ext(lx, unspread2_16_chain(l));
    assert forall|i: u32| i < 32 implies bit32(rx, i) == bit32(unspread2_16_chain(r), i) by {}
    lemma_bit32_ext(rx, unspread2_16_chain(r));
    assert forall|i: u32| i < 32 implies bit32(ly, i) == bit32(unspread2_16_chain(l >> 1), i) by {
        assert(bit32(ly, i) == (i < 16 && bit32(l, (2 * i + 1) as u32)));
        assert(bit32(unspread2_16_chain(l >> 1), i) == (i < 16 && bit32(l >> 1, (2 * i) as u32)));
    }
    lemma_bit32_ext(ly, unspread2_16_chain(l >> 1));
    assert forall|i: u32| i < 32 implies bit32(ry, i) == bit32(unspread2_16_chain(r >> 1), i) by {
        assert(bit32(ry, i) == (i < 16 && bit32(r, (2 * i + 1) as u32)));
        assert(bit32(unspread2_16_chain(r >> 1), i) == (i < 16 && bit32(r >> 1, (2 * i) as u32)));
    }
    lemma_bit32_ext(ry, unspread2_16_chain(r >> 1));
    assert((((l & MORTON2_16_X) < (r & MORTON2_16_X)) == (unspread2_16_chain(l)
        < unspread2_16_chain(r))) && (((l & MORTON2_16_Y) < (r & MORTON2_16_Y)) == (
    unspread2_16_chain(l >> 1) < unspread2_16_chain(r >> 1)))) by (bit_vector);
}

/// In an interleaved word, the bits of one axis shifted down by the axis
/// index line up with the base axis's bit positions.
proof fn lemma_shift_bits64(w: u64)
    ensures
        forall|i: u64| i < 21 ==> #[trigger] bit64(w >> 1, (3 * i) as u64) == bit64(
            w,
            (3 * i + 1) as u64,
        ),
        forall|i: u64| i < 21 ==> #[trigger] bit64(w >> 2, (3 * i) as u64) == bit64(
            w,
            (3 * i + 2) as u64,
        ),
{
    assert((forall|i: u64| i < 21 ==> #[trigger] bit64(w >> 1, (3 * i) as u64) == bit64(
        w,
        (3 * i + 1) as u64,
    )) && (forall|i: u64| i < 21 ==> #[trigger] bit64(w >> 2, (3 * i) as u64) == bit64(
        w,
        (3 * i + 2) as u64,
    ))) by (bit_vector);
}

/// Comparison consistency, 21.21.21-bit format: comparing two codes masked
/// to one axis orders them exactly as the decoded coordinates of that axis
/// do, which justifies the masked comparison predicates.
pub proof fn lemma_compare_consistent_3d63(
    l: u64,
    r: u64,
    lx: u32,
    ly: u32,
    lz: u32,
    rx: u32,
    ry: u32,
    rz: u32,
)
    requires
        unmorton3d63_rel(l, lx, ly, lz),
        unmorton3d63_rel(r, rx, ry, rz),
    ensures
        ((l & MORTON3_21_X) < (r & MORTON3_21_X)) == (lx < rx),
        ((l & MORTON3_21_Y) < (r & MORTON3_21_Y)) == (ly < ry),
        ((l & MORTON3_21_Z) < (r & MORTON3_21_Z)) == (lz < rz),
{
    lemma_unspread3_21_chain_rel(l);
    lemma_unspread3_21_chain_rel(r);
    lemma_unspread3_21_chain_rel(l >> 1);
    lemma_unspread3_21_chain_rel(r >> 1);
    lemma_unspread3_21_chain_rel(l >> 2);
    lemma_unspread3_21_chain_rel(r >> 2);
    lemma_shift_bits64(l);
    lemma_shift_bits64(r);
    assert forall|i: u32| i < 32 implies bit32(lx, i) == bit32(unspread3_21_chain(l), i) by {}
    lemma_bit32_ext(lx, unspread3_21_chain(l));
    assert forall|i: u32| i < 32 implies bit32(rx, i) == bit32(unspread3_21_chain(r), i) by {}
    lemma_bit32_ext(rx, unspread3_21_chain(r));
    assert forall|i: u32| i < 32 implies bit32(ly, i) == bit32(unspread3_21_chain(l >> 1), i) by {
        assert(bit32(ly, i) == (i < 21 && bit64(l, (3 * i + 1) as u64)));
        assert(bit32(unspread3_21_chain(l >> 1), i) == (i < 21 && bit64(l >> 1, (3 * i) as u64)));
        if i < 21 {
            assert(bit64(l >> 1, (3 * (i as u64)) as u64) == bit64(l, (3 * (i as u64) + 1) as u64));
            assert((3 * (i as u64)) as u64 == (3 * i) as u64);
            assert((3 * (i as u64) + 1) as u64 == (3 * i + 1) as u64);
        }
    }
    lemma_bit32_ext(ly, unspread3_21_chain(l >> 1));
    assert forall|i: u32| i < 32 implies bit32(ry, i) == bit32(unspread3_21_chain(r >> 1), i) by {
        assert(bit32(ry, i) == (i < 21 && bit64(r, (3 * i + 1) as u64)));
        assert(bit32(unspread3_21_chain(r >> 1), i) == (i < 21 && bit64(r >> 1, (3 * i) as u64)));
        if i < 21 {
            assert(bit64(r >> 1, (3 * (i as u64)) as u64) == bit64(r, (3 * (i as u64) + 1) as u64));
            assert((3 * (i as u64)) as u64 == (3 * i) as u64);
            assert((3 * (i as u64) + 1) as u64 == (3 * i + 1) as u64);
        }
    }
    lemma_bit32_ext(ry, unspread3_21_chain(r >> 1));
    assert forall|i: u32| i < 32 implies bit32(lz, i) == bit32(unspread3_21_chain(l >> 2), i) by {
        assert(bit32(lz, i) == (i < 21 && bit64(l, (3 * i + 2) as u64)));
        assert(bit32(unspread3_21_chain(l >> 2), i) == (i < 21 && bit64(l >> 2, (3 * i) as u64)));
        if i < 21 {
            assert(bit64(l >> 2, (3 * (i as u64)) as u64) == bit64(l, (3 * (i as u64) + 2) as u64));
            assert((3 * (i as u64)) as u64 == (3 * i) as u64);
            assert((3 * (i as u64) + 2) as u64 == (3 * i + 2) as u64);
        }
    }
    lemma_bit32_ext(lz, unspread3_21_chain(l >> 2));
    assert forall|i: u32| i < 32 implies bit32(rz, i) == bit32(unspread3_21_chain(r >> 2), i) by {
        assert(bit32(rz, i) == (i < 21 && bit64(r, (3 * i + 2) as u64)));
        assert(bit32(unspread3_21_chain(r >> 2), i) == (i < 21 && bit64(r >> 2, (3 * i) as u64)));
        if i < 21 {
            assert(bit64(r >> 2, (3 * (i as u64)) as u64) == bit64(r, (3 * (i as u64) + 2) as u64));
            assert((3 * (i as u64)) as u64 == (3 * i) as u64);
            assert((3 * (i as u64) + 2) as u64 == (3 * i + 2) as u64);
        }
    }
    lemma_bit32_ext(rz, unspread3_21_chain(r >> 2));
    assert((((l & MORTON3_21_X) < (r & MORTON3_21_X)) == (unspread3_21_chain(l)
        < unspread3_21_chain(r))) && (((l & MORTON3_21_Y) < (r & MORTON3_21_Y)) == (
    unspread3_21_chain(l >> 1) < unspread3_21_chain(r >> 1))) && (((l & MORTON3_21_Z) < (r
        & MORTON3_21_Z)) == (unspread3_21_chain(l >> 2) < unspread3_21_chain(r >> 2)))) by (bit_vector);
}

/// In a 7.7.7-bit code widened to a 64-bit word, one axis's bits, masked
/// and shifted down by the axis index, sit at multiples of three and
/// reproduce that axis's bits of the code.
proof fn lemma_axis_bits3d21(w: u32)
    ensures
        forall|i: u32| i < 32 ==> #[trigger] bit64((w as u64) & 0x49249, (3 * i) as u64) == (i < 7
            && bit32(w, (3 * i) as u32)),
        forall|i: u32| i < 32 ==> #[trigger] bit64(((w as u64) & 0x92492) >> 1, (3 * i) as u64) == (
        i < 7 && bit32(w, (3 * i + 1) as u32)),
        forall|i: u32| i < 32 ==> #[trigger] bit64(((w as u64) & 0x124924) >> 2, (3 * i) as u64)
            == (i < 7 && bit32(w, (3 * i + 2) as u32)),
{
    assert((forall|i: u32| i < 32 ==> #[trigger] bit64((w as u64) & 0x49249, (3 * i) as u64) == (i
        < 7 && bit32(w, (3 * i) as u32))) && (forall|i: u32| i < 32 ==> #[trigger] bit64(
        ((w as u64) & 0x92492) >> 1,
        (3 * i) as u64,
    ) == (i < 7 && bit32(w, (3 * i + 1) as u32))) && (forall|i: u32| i < 32 ==> #[trigger] bit64(
        ((w as u64) & 0x124924) >> 2,
        (3 * i) as u64,
    ) == (i < 7 && bit32(w, (3 * i + 2) as u32)))) by (bit_vector);
}

/// Comparison consistency, 7.7.7-bit format: comparing two codes masked to
/// one axis orders them exactly as the decoded coordinates of that axis
/// do, which justifies the masked comparison predicates.
pub proof fn lemma_compare_consistent_3d21(
    l: u32,
    r: u32,
    lx: u32,
    ly: u32,
    lz: u32,
    rx: u32,
    ry: u32,
    rz: u32,
)
    requires
        unmorton3d21_rel(l, lx, ly, lz),
        unmorton3d21_rel(r, rx, ry, rz),
    ensures
        ((l & MORTON3_7_X) < (r & MORTON3_7_X)) == (lx < rx),
        ((l & MORTON3_7_Y) < (r & MORTON3_7_Y)) == (ly < ry),
        ((l & MORTON3_7_Z) < (r & MORTON3_7_Z)) == (lz < rz),
{
    lemma_unspread3_21_chain_rel((l as u64) & 0x49249);
    lemma_unspread3_21_chain_rel((r as u64) & 0x49249);
    lemma_unspread3_21_chain_rel(((l as u64) & 0x92492) >> 1);
    lemma_unspread3_21_chain_rel(((r as u64) & 0x92492) >> 1);
    lemma_unspread3_21_chain_rel(((l as u64) & 0x124924) >> 2);
    lemma_unspread3_21_chain_rel(((r as u64) & 0x124924) >> 2);
    lemma_axis_bits3d21(l);
    lemma_axis_bits3d21(r);
    assert forall|i: u32| i < 32 implies bit32(lx, i) == bit32(
        unspread3_21_chain((l as u64) & 0x49249),
        i,
    ) by {
        assert(bit32(lx, i) == (i < 7 && bit32(l, (3 * i) as u32)));
        assert(bit32(unspread3_21_chain((l as u64) & 0x49249), i) == (i < 21 && bit64(
            (l as u64) & 0x49249,
            (3 * i) as u64,
        )));
    }
    lemma_bit32_ext(lx, unspread3_21_chain((l as u64) & 0x49249));
    assert forall|i: u32| i < 32 implies bit32(rx, i) == bit32(
        unspread3_21_chain((r as u64) & 0x49249),
        i,
    ) by {
        assert(bit32(rx, i) == (i < 7 && bit32(r, (3 * i) as u32)));
        assert(bit32(unspread3_21_chain((r as u64) & 0x49249), i) == (i < 21 && bit64(
            (r as u64) & 0x49249,
            (3 * i) as u64,
        )));
    }
    lemma_bit32_ext(rx, unspread3_21_chain((r as u64) & 0x49249));
    assert forall|i: u32| i < 32 implies bit32(ly, i) == bit32(
        unspread3_21_chain(((l as u64) & 0x92492) >> 1),
        i,
    ) by {
        assert(bit32(ly, i) == (i < 7 && bit32(l, (3 * i + 1) as u32)));
        assert(bit32(unspread3_21_chain(((l as u64) & 0x92492) >> 1), i) == (i < 21 && bit64(
            ((l as u64) & 0x92492) >> 1,
            (3 * i) as u64,
        )));
    }
    lemma_bit32_ext(ly, unspread3_21_chain(((l as u64) & 0x92492) >> 1));
    assert forall|i: u32| i < 32 implies bit32(ry, i) == bit32(
        unspread3_21_chain(((r as u64) & 0x92492) >> 1),
        i,
    ) by {
        assert(bit32(ry, i) == (i < 7 && bit32(r, (3 * i + 1) as u32)));
        assert(bit32(unspread3_21_chain(((r as u64) & 0x92492) >> 1), i) == (i < 21 && bit64(
            ((r as u64) & 0x92492) >> 1,
            (3 * i) as u64,
        )));
    }
    lemma_bit32_ext(ry, unspread3_21_chain(((r as u64) & 0x92492) >> 1));
    assert forall|i: u32| i < 32 implies bit32(lz, i) == bit32(
        unspread3_21_chain(((l as u64) & 0x124924) >> 2),
        i,
    ) by {
        assert(bit32(lz, i) == (i < 7 && bit32(l, (3 * i + 2) as u32)));
        assert(bit32(unspread3_21_chain(((l as u64) & 0x124924) >> 2), i) == (i < 21 && bit64(
            ((l as u64) & 0x124924) >> 2,
            (3 * i) as u64,
        )));
    }
    lemma_bit32_ext(lz, unspread3_21_chain(((l as u64) & 0x124924) >> 2));
    assert forall|i: u32| i < 32 implies bit32(rz, i) == bit32(
        unspread3_21_chain(((r as u64) & 0x124924) >> 2),
        i,
    ) by {
        assert(bit32(rz, i) == (i < 7 && bit32(r, (3 * i + 2) as u32)));
        assert(bit32(unspread3_21_chain(((r as u64) & 0x124924) >> 2), i) == (i < 21 && bit64(
            ((r as u64) & 0x124924) >> 2,
            (3 * i) as u64,
        )));
    }
    lemma_bit32_ext(rz, unspread3_21_chain(((r as u64) & 0x124924) >> 2));
    assert((((l & MORTON3_7_X) < (r & MORTON3_7_X)) == (unspread3_21_chain((l as u64) & 0x49249)
        < unspread3_21_chain((r as u64) & 0x49249))) && (((l & MORTON3_7_Y) < (r & MORTON3_7_Y))
        == (unspread3_21_chain(((l as u64) & 0x92492) >> 1) < unspread3_21_chain(
        ((r as u64) & 0x92492) >> 1,
    ))) && (((l & MORTON3_7_Z) < (r & MORTON3_7_Z)) == (unspread3_21_chain(
        ((l as u64) & 0x124924) >> 2,
    ) < unspread3_21_chain(((r as u64) & 0x124924) >> 2)))) by (bit_vector);
}

} // verus!
