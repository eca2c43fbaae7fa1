//! Masked per-axis arithmetic on encoded Morton codes: increment,
//! decrement and comparisons restricted to the bits one axis mask selects,
//! without decoding.
//!
//! Incrementing adds one to the value stored in the masked bit field, with
//! the carry confined to that field: the non-axis bits are forced to one
//! before the add, so a carry leaving the field ripples into bits that are
//! masked away afterwards, and the field wraps modulo its own size.
//! Decrementing is symmetric, with the borrow confined by forcing the
//! non-axis bits to zero.  Both leave every bit outside the mask unchanged.
//!
//! The increment contract pins the result down as the successor within the
//! mask: the field strictly grows, yet no value representable in the mask
//! fits strictly between the old and the new field (and dually for the
//! decrement).  One specialization is provided per code width.

use vstd::prelude::*;

use vstd::wrapping::u32_specs;
use vstd::wrapping::u64_specs;

verus! {

/// Increment the bits of `m` selected by `d` as one counter, wrapping
/// within the field and leaving all other bits unchanged.
pub fn increment_axis32(m: u32, d: u32) -> (r: u32)
    ensures
        r & !d == m & !d,
        m & d == d ==> r & d == 0,
        m & d != d ==> (m & d) < (r & d),
        m & d != d ==> forall|v: u32| !((m & d) < (#[trigger] (v & d)) && (v & d) < (r & d)),
{
    let s = (m | !d).wrapping_add(1);
    let r = (s & d) | (m & !d);
    proof {
        assert((r & !d == m & !d) && (m & d == d ==> r & d == 0) && (m & d != d ==> (m & d) < (r
            & d)) && (m & d != d ==> forall|v: u32|
            !((m & d) < (#[trigger] (v & d)) && (v & d) < (r & d)))) by (bit_vector)
            requires
                s == u32_specs::wrapping_add(m | !d, 1),
                r == (s & d) | (m & !d),
        ;
    }
    r
}

/// Decrement the bits of `m` selected by `d` as one counter, wrapping
/// within the field and leaving all other bits unchanged.
pub fn decrement_axis32(m: u32, d: u32) -> (r: u32)
    ensures
        r & !d == m & !d,
        m & d == 0 ==> r & d == d,
        m & d != 0 ==> (r & d) < (m & d),
        m & d != 0 ==> forall|v: u32| !((r & d) < (#[trigger] (v & d)) && (v & d) < (m & d)),
{
    let s = (m & d).wrapping_sub(1);
    let r = (s & d) | (m & !d);
    proof {
        assert((r & !d == m & !d) && (m & d == 0 ==> r & d == d) && (m & d != 0 ==> (r & d) < (m
            & d)) && (m & d != 0 ==> forall|v: u32|
            !((r & d) < (#[trigger] (v & d)) && (v & d) < (m & d)))) by (bit_vector)
            requires
                s == u32_specs::wrapping_sub(m & d, 1),
                r == (s & d) | (m & !d),
        ;
    }
    r
}

/// True when `l` and `r` store the same value in the field `d` selects.
pub fn equal_axis32(l: u32, r: u32, d: u32) -> (res: bool)
    ensures
        res == ((l & d) == (r & d)),
{
    (l & d) == (r & d)
}

/// True when `l` and `r` store different values in the field `d` selects.
pub fn not_equal_axis32(l: u32, r: u32, d: u32) -> (res: bool)
    ensures
        res == ((l & d) != (r & d)),
{
    (l & d) != (r & d)
}

/// True when the field of `l` selected by `d` is less than that of `r`.
pub fn less_than_axis32(l: u32, r: u32, d: u32) -> (res: bool)
    ensures
        res == ((l & d) < (r & d)),
{
    (l & d) < (r & d)
}

/// True when the field of `l` selected by `d` is greater than that of `r`.
pub fn greater_than_axis32(l: u32, r: u32, d: u32) -> (res: bool)
    ensures
        res == ((l & d) > (r & d)),
{
    (l & d) > (r & d)
}

/// Increment the bits of `m` selected by `d` as one counter, wrapping
/// within the field and leaving all other bits unchanged.
pub fn increment_axis64(m: u64, d: u64) -> (r: u64)
    ensures
        r & !d == m & !d,
        m & d == d ==> r & d == 0,
        m & d != d ==> (m & d) < (r & d),
        m & d != d ==> forall|v: u64| !((m & d) < (#[trigger] (v & d)) && (v & d) < (r & d)),
{
    let s = (m | !d).wrapping_add(1);
    let r = (s & d) | (m & !d);
    proof {
        assert((r & !d == m & !d) && (m & d == d ==> r & d == 0) && (m & d != d ==> (m & d) < (r
            & d)) && (m & d != d ==> forall|v: u64|
            !((m & d) < (#[trigger] (v & d)) && (v & d) < (r & d)))) by (bit_vector)
            requires
                s == u64_specs::wrapping_add(m | !d, 1),
                r == (s & d) | (m & !d),
        ;
    }
    r
}

/// Decrement the bits of `m` selected by `d` as one counter, wrapping
/// within the field and leaving all other bits unchanged.
pub fn decrement_axis64(m: u64, d: u64) -> (r: u64)
    ensures
        r & !d == m & !d,
        m & d == 0 ==> r & d == d,
        m & d != 0 ==> (r & d) < (m & d),
        m & d != 0 ==> forall|v: u64| !((r & d) < (#[trigger] (v & d)) && (v & d) < (m & d)),
{
    let s = (m & d).wrapping_sub(1);
    let r = (s & d) | (m & !d);
    proof {
        assert((r & !d == m & !d) && (m & d == 0 ==> r & d == d) && (m & d != 0 ==> (r & d) < (m
            & d)) && (m & d != 0 ==> forall|v: u64|
            !((r & d) < (#[trigger] (v & d)) && (v & d) < (m & d)))) by (bit_vector)
            requires
                s == u64_specs::wrapping_sub(m & d, 1),
                r == (s & d) | (m & !d),
        ;
    }
    r
}

/// True when `l` and `r` store the same value in the field `d` selects.
pub fn equal_axis64(l: u64, r: u64, d: u64) -> (res: bool)
    ensures
        res == ((l & d) == (r & d)),
{
    (l & d) == (r & d)
}

/// True when `l` and `r` store different values in the field `d` selects.
pub fn not_equal_axis64(l: u64, r: u64, d: u64) -> (res: bool)
    ensures
        res == ((l & d) != (r & d)),
{
    (l & d) != (r & d)
}

/// True when the field of `l` selected by `d` is less than that of `r`.
pub fn less_than_axis64(l: u64, r: u64, d: u64) -> (res: bool)
    ensures
        res == ((l & d) < (r & d)),
{
    (l & d) < (r & d)
}

/// True when the field of `l` selected by `d` is greater than that of `r`.
pub fn greater_than_axis64(l: u64, r: u64, d: u64) -> (res: bool)
    ensures
        res == ((l & d) > (r & d)),
{
    (l & d) > (r & d)
}

} // verus!
