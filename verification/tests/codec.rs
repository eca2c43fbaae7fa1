use morton::codec::{
    morton2d32, morton3d21, morton3d63, unmorton2d32, unmorton3d21, unmorton3d63, MORTON2_16_MASK,
    MORTON2_16_X, MORTON2_16_Y, MORTON3_21_MASK, MORTON3_21_X, MORTON3_21_Y, MORTON3_21_Z,
    MORTON3_5_MASK, MORTON3_5_X, MORTON3_5_Y, MORTON3_5_Z, MORTON3_7_MASK, MORTON3_7_X,
    MORTON3_7_Y, MORTON3_7_Z,
};

#[test]
fn morton2d32_interleaves_five_and_three() {
    // x = 0b101 in the even bits, y = 0b011 in the odd bits: 0b011011
    assert_eq!(morton2d32(5, 3), 27);
    assert_eq!(unmorton2d32(27), (5, 3));
}

#[test]
fn morton2d32_examples() {
    assert_eq!(morton2d32(0, 0), 0);
    assert_eq!(morton2d32(1, 0), 1);
    assert_eq!(morton2d32(0, 1), 2);
    assert_eq!(morton2d32(0xFFFF, 0), 0x55555555);
    assert_eq!(morton2d32(0, 0xFFFF), 0xAAAAAAAA);
    assert_eq!(morton2d32(0xFFFF, 0xFFFF), 0xFFFFFFFF);
    assert_eq!(morton2d32(1234, 567), 0x185B2E);
}

#[test]
fn morton2d32_round_trip() {
    for (x, y) in [(0u32, 0u32), (1, 0), (0, 1), (5, 3), (1234, 567), (0xFFFF, 0xFFFF)] {
        assert_eq!(unmorton2d32(morton2d32(x, y)), (x, y));
    }
}

#[test]
fn morton3d63_examples() {
    assert_eq!(morton3d63(0, 0, 0), 0);
    assert_eq!(morton3d63(1, 0, 0), 1);
    assert_eq!(morton3d63(0, 1, 0), 2);
    assert_eq!(morton3d63(0, 0, 1), 4);
    assert_eq!(morton3d63(1, 1, 1), 7);
    assert_eq!(morton3d63(0x1FFFFF, 0x1FFFFF, 0x1FFFFF), 0x7FFFFFFFFFFFFFFF);
    assert_eq!(morton3d63(123456, 654321, 777), 0x04036DA43E4D2806);
}

#[test]
fn morton3d63_round_trip() {
    let cases = [
        (0u32, 0u32, 0u32),
        (1, 2, 3),
        (123456, 654321, 777),
        (0x1FFFFF, 0, 0x1FFFFF),
        (0x1FFFFF, 0x1FFFFF, 0x1FFFFF),
    ];
    for (x, y, z) in cases {
        assert_eq!(unmorton3d63(morton3d63(x, y, z)), (x, y, z));
    }
}

#[test]
fn morton3d21_examples() {
    assert_eq!(morton3d21(0, 0, 0), 0);
    assert_eq!(morton3d21(1, 0, 0), 1);
    assert_eq!(morton3d21(0, 1, 0), 2);
    assert_eq!(morton3d21(0, 0, 1), 4);
    assert_eq!(morton3d21(7, 0, 0), 73);
    assert_eq!(morton3d21(127, 127, 127), 0x1FFFFF);
    assert_eq!(morton3d21(3, 64, 100), 0x1A0109);
}

#[test]
fn morton3d21_round_trip() {
    let cases = [(0u32, 0u32, 0u32), (1, 0, 0), (3, 64, 100), (127, 5, 9), (127, 127, 127)];
    for (x, y, z) in cases {
        assert_eq!(unmorton3d21(morton3d21(x, y, z)), (x, y, z));
    }
}

#[test]
fn mask_partition_2d32() {
    assert_eq!(MORTON2_16_X & MORTON2_16_Y, 0);
    assert_eq!(MORTON2_16_X | MORTON2_16_Y, MORTON2_16_MASK);
    assert_eq!(MORTON2_16_X << 1, MORTON2_16_Y);
}

#[test]
fn mask_partition_3d63() {
    assert_eq!(MORTON3_21_X & MORTON3_21_Y, 0);
    assert_eq!(MORTON3_21_X & MORTON3_21_Z, 0);
    assert_eq!(MORTON3_21_Y & MORTON3_21_Z, 0);
    assert_eq!(MORTON3_21_X | MORTON3_21_Y | MORTON3_21_Z, MORTON3_21_MASK);
    assert_eq!(MORTON3_21_X << 1, MORTON3_21_Y);
    assert_eq!(MORTON3_21_X << 2, MORTON3_21_Z);
}

#[test]
fn mask_partition_3d21() {
    assert_eq!(MORTON3_7_X & MORTON3_7_Y, 0);
    assert_eq!(MORTON3_7_X & MORTON3_7_Z, 0);
    assert_eq!(MORTON3_7_Y & MORTON3_7_Z, 0);
    assert_eq!(MORTON3_7_X | MORTON3_7_Y | MORTON3_7_Z, MORTON3_7_MASK);
    assert_eq!(MORTON3_7_X << 1, MORTON3_7_Y);
    assert_eq!(MORTON3_7_X << 2, MORTON3_7_Z);
}

#[test]
fn mask_partition_3d15() {
    assert_eq!(MORTON3_5_X & MORTON3_5_Y, 0);
    assert_eq!(MORTON3_5_X & MORTON3_5_Z, 0);
    assert_eq!(MORTON3_5_Y & MORTON3_5_Z, 0);
    assert_eq!(MORTON3_5_X | MORTON3_5_Y | MORTON3_5_Z, MORTON3_5_MASK);
    assert_eq!(MORTON3_5_X << 1, MORTON3_5_Y);
    assert_eq!(MORTON3_5_X << 2, MORTON3_5_Z);
}

#[test]
fn codes_sort_by_locality_prefix() {
    // nearby coordinates give nearby codes: the code of a point is bounded
    // by the codes of the cell corners around it
    let lo = morton2d32(4, 2);
    let hi = morton2d32(5, 3);
    let mid = morton2d32(4, 3);
    assert!(lo < mid && mid < hi);
}
