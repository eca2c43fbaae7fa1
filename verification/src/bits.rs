//! Single-bit views of the fixed-width integers the codes live in, and
//! extensionality lemmas: values that agree on every bit are equal.

use vstd::prelude::*;

verus! {

/// True when bit `i` of `x` is set.
pub open spec fn bit16(x: u16, i: u16) -> bool {
    (x >> i) & 1 == 1
}

/// True when bit `i` of `x` is set.
pub open spec fn bit32(x: u32, i: u32) -> bool {
    (x >> i) & 1 == 1
}

/// True when bit `i` of `x` is set.
pub open spec fn bit64(x: u64, i: u64) -> bool {
    (x >> i) & 1 == 1
}

/// Two `u32` values that agree on all 32 bits are equal.
pub proof fn lemma_bit32_ext(a: u32, b: u32)
    requires
        forall|i: u32| i < 32 ==> bit32(a, i) == bit32(b, i),
    ensures
        a == b,
{
    assert(a == b) by (bit_vector)
        requires
            bit32(a, 0) == bit32(b, 0),
            bit32(a, 1) == bit32(b, 1),
            bit32(a, 2) == bit32(b, 2),
            bit32(a, 3) == bit32(b, 3),
            bit32(a, 4) == bit32(b, 4),
            bit32(a, 5) == bit32(b, 5),
            bit32(a, 6) == bit32(b, 6),
            bit32(a, 7) == bit32(b, 7),
            bit32(a, 8) == bit32(b, 8),
            bit32(a, 9) == bit32(b, 9),
            bit32(a, 10) == bit32(b, 10),
            bit32(a, 11) == bit32(b, 11),
            bit32(a, 12) == bit32(b, 12),
            bit32(a, 13) == bit32(b, 13),
            bit32(a, 14) == bit32(b, 14),
            bit32(a, 15) == bit32(b, 15),
            bit32(a, 16) == bit32(b, 16),
            bit32(a, 17) == bit32(b, 17),
            bit32(a, 18) == bit32(b, 18),
            bit32(a, 19) == bit32(b, 19),
            bit32(a, 20) == bit32(b, 20),
            bit32(a, 21) == bit32(b, 21),
            bit32(a, 22) == bit32(b, 22),
            bit32(a, 23) == bit32(b, 23),
            bit32(a, 24) == bit32(b, 24),
            bit32(a, 25) == bit32(b, 25),
            bit32(a, 26) == bit32(b, 26),
            bit32(a, 27) == bit32(b, 27),
            bit32(a, 28) == bit32(b, 28),
            bit32(a, 29) == bit32(b, 29),
            bit32(a, 30) == bit32(b, 30),
            bit32(a, 31) == bit32(b, 31),
    ;
}

/// Two `u64` values that agree on all 64 bits are equal.
pub proof fn lemma_bit64_ext(a: u64, b: u64)
    requires
        forall|i: u64| i < 64 ==> bit64(a, i) == bit64(b, i),
    ensures
        a == b,
{
    assert(a == b) by (bit_vector)
        requires
            bit64(a, 0) == bit64(b, 0),
            bit64(a, 1) == bit64(b, 1),
            bit64(a, 2) == bit64(b, 2),
            bit64(a, 3) == bit64(b, 3),
            bit64(a, 4) == bit64(b, 4),
            bit64(a, 5) == bit64(b, 5),
            bit64(a, 6) == bit64(b, 6),
            bit64(a, 7) == bit64(b, 7),
            bit64(a, 8) == bit64(b, 8),
            bit64(a, 9) == bit64(b, 9),
            bit64(a, 10) == bit64(b, 10),
            bit64(a, 11) == bit64(b, 11),
            bit64(a, 12) == bit64(b, 12),
            bit64(a, 13) == bit64(b, 13),
            bit64(a, 14) == bit64(b, 14),
            bit64(a, 15) == bit64(b, 15),
            bit64(a, 16) == bit64(b, 16),
            bit64(a, 17) == bit64(b, 17),
            bit64(a, 18) == bit64(b, 18),
            bit64(a, 19) == bit64(b, 19),
            bit64(a, 20) == bit64(b, 20),
            bit64(a, 21) == bit64(b, 21),
            bit64(a, 22) == bit64(b, 22),
            bit64(a, 23) == bit64(b, 23),
            bit64(a, 24) == bit64(b, 24),
            bit64(a, 25) == bit64(b, 25),
            bit64(a, 26) == bit64(b, 26),
            bit64(a, 27) == bit64(b, 27),
            bit64(a, 28) == bit64(b, 28),
            bit64(a, 29) == bit64(b, 29),
            bit64(a, 30) == bit64(b, 30),
            bit64(a, 31) == bit64(b, 31),
            bit64(a, 32) == bit64(b, 32),
            bit64(a, 33) == bit64(b, 33),
            bit64(a, 34) == bit64(b, 34),
            bit64(a, 35) == bit64(b, 35),
            bit64(a, 36) == bit64(b, 36),
            bit64(a, 37) == bit64(b, 37),
            bit64(a, 38) == bit64(b, 38),
            bit64(a, 39) == bit64(b, 39),
            bit64(a, 40) == bit64(b, 40),
            bit64(a, 41) == bit64(b, 41),
            bit64(a, 42) == bit64(b, 42),
            bit64(a, 43) == bit64(b, 43),
            bit64(a, 44) == bit64(b, 44),
            bit64(a, 45) == bit64(b, 45),
            bit64(a, 46) == bit64(b, 46),
            bit64(a, 47) == bit64(b, 47),
            bit64(a, 48) == bit64(b, 48),
            bit64(a, 49) == bit64(b, 49),
            bit64(a, 50) == bit64(b, 50),
            bit64(a, 51) == bit64(b, 51),
            bit64(a, 52) == bit64(b, 52),
            bit64(a, 53) == bit64(b, 53),
            bit64(a, 54) == bit64(b, 54),
            bit64(a, 55) == bit64(b, 55),
            bit64(a, 56) == bit64(b, 56),
            bit64(a, 57) == bit64(b, 57),
            bit64(a, 58) == bit64(b, 58),
            bit64(a, 59) == bit64(b, 59),
            bit64(a, 60) == bit64(b, 60),
            bit64(a, 61) == bit64(b, 61),
            bit64(a, 62) == bit64(b, 62),
            bit64(a, 63) == bit64(b, 63),
    ;
}

} // verus!
