use morton::axis::{
    decrement_axis32, decrement_axis64, equal_axis32, equal_axis64, greater_than_axis32,
    greater_than_axis64, increment_axis32, increment_axis64, less_than_axis32, less_than_axis64,
    not_equal_axis32, not_equal_axis64,
};
use morton::codec::{
    morton2d32, morton3d21, morton3d63, MORTON2_16_X, MORTON2_16_Y, MORTON3_21_X, MORTON3_21_Y,
    MORTON3_21_Z, MORTON3_7_X, MORTON3_7_Y, MORTON3_7_Z,
};

#[test]
fn increment_steps_one_axis_3d21() {
    // six x-steps from (1, 0, 0) land on (7, 0, 0)
    let mut m = morton3d21(1, 0, 0);
    for _ in 0..6 {
        m = increment_axis32(m, MORTON3_7_X);
    }
    assert_eq!(m, morton3d21(7, 0, 0));
}

#[test]
fn increment_wraps_at_field_maximum_3d21() {
    // x sits at its 7-bit maximum, so one more step wraps it to zero and
    // leaves y and z untouched
    let m = morton3d21(127, 5, 9);
    assert_eq!(increment_axis32(m, MORTON3_7_X), morton3d21(0, 5, 9));
}

#[test]
fn decrement_wraps_at_field_minimum_3d21() {
    let m = morton3d21(0, 5, 9);
    assert_eq!(decrement_axis32(m, MORTON3_7_X), morton3d21(127, 5, 9));
}

#[test]
fn increment_and_decrement_cancel_3d21() {
    let m = morton3d21(3, 64, 100);
    for d in [MORTON3_7_X, MORTON3_7_Y, MORTON3_7_Z] {
        assert_eq!(decrement_axis32(increment_axis32(m, d), d), m);
        assert_eq!(increment_axis32(decrement_axis32(m, d), d), m);
    }
}

#[test]
fn increment_carries_within_field_2d32() {
    // stepping y from 3 to 4 carries across two of its interleaved bits
    let m = morton2d32(5, 3);
    assert_eq!(increment_axis32(m, MORTON2_16_Y), morton2d32(5, 4));
    assert_eq!(increment_axis32(m, MORTON2_16_X), morton2d32(6, 3));
}

#[test]
fn increment_wraps_at_field_maximum_2d32() {
    let m = morton2d32(0xFFFF, 41);
    assert_eq!(increment_axis32(m, MORTON2_16_X), morton2d32(0, 41));
    let m = morton2d32(41, 0xFFFF);
    assert_eq!(increment_axis32(m, MORTON2_16_Y), morton2d32(41, 0));
}

#[test]
fn increment_steps_one_axis_3d63() {
    let m = morton3d63(41, 7, 9);
    assert_eq!(increment_axis64(m, MORTON3_21_X), morton3d63(42, 7, 9));
    assert_eq!(increment_axis64(m, MORTON3_21_Y), morton3d63(41, 8, 9));
    assert_eq!(increment_axis64(m, MORTON3_21_Z), morton3d63(41, 7, 10));
}

#[test]
fn increment_wraps_at_field_maximum_3d63() {
    let m = morton3d63(0x1FFFFF, 7, 9);
    assert_eq!(increment_axis64(m, MORTON3_21_X), morton3d63(0, 7, 9));
}

#[test]
fn decrement_wraps_at_field_minimum_3d63() {
    let m = morton3d63(7, 0, 9);
    assert_eq!(decrement_axis64(m, MORTON3_21_Y), morton3d63(7, 0x1FFFFF, 9));
}

#[test]
fn increment_leaves_other_axes_unchanged() {
    let m = morton3d63(123456, 654321, 777);
    let stepped = increment_axis64(m, MORTON3_21_Y);
    assert_eq!(stepped & MORTON3_21_X, m & MORTON3_21_X);
    assert_eq!(stepped & MORTON3_21_Z, m & MORTON3_21_Z);
    let m = morton3d21(3, 64, 100);
    let stepped = increment_axis32(m, MORTON3_7_Z);
    assert_eq!(stepped & MORTON3_7_X, m & MORTON3_7_X);
    assert_eq!(stepped & MORTON3_7_Y, m & MORTON3_7_Y);
}

#[test]
fn comparisons_follow_decoded_coordinates_32() {
    let l = morton2d32(5, 900);
    let r = morton2d32(6, 3);
    // on x: 5 < 6; on y: 900 > 3
    assert!(less_than_axis32(l, r, MORTON2_16_X));
    assert!(!less_than_axis32(l, r, MORTON2_16_Y));
    assert!(greater_than_axis32(l, r, MORTON2_16_Y));
    assert!(!greater_than_axis32(l, r, MORTON2_16_X));
    assert!(not_equal_axis32(l, r, MORTON2_16_X));
    assert!(!equal_axis32(l, r, MORTON2_16_X));
    let same_y = morton2d32(1000, 3);
    assert!(equal_axis32(r, same_y, MORTON2_16_Y));
    assert!(!not_equal_axis32(r, same_y, MORTON2_16_Y));
}

#[test]
fn comparisons_follow_decoded_coordinates_64() {
    let l = morton3d63(100, 2000, 5);
    let r = morton3d63(101, 1999, 5);
    assert!(less_than_axis64(l, r, MORTON3_21_X));
    assert!(greater_than_axis64(l, r, MORTON3_21_Y));
    assert!(equal_axis64(l, r, MORTON3_21_Z));
    assert!(not_equal_axis64(l, r, MORTON3_21_Y));
    assert!(!less_than_axis64(l, r, MORTON3_21_Z));
    assert!(!greater_than_axis64(l, r, MORTON3_21_Z));
}

#[test]
fn interleaved_comparison_is_not_plain_integer_order() {
    // y = 1 sets a higher interleaved bit than x = 1, so the masked
    // comparison differs from comparing the raw codes
    let l = morton2d32(1, 0);
    let r = morton2d32(0, 1);
    assert!(l < r);
    assert!(greater_than_axis32(l, r, MORTON2_16_X));
    assert!(less_than_axis32(l, r, MORTON2_16_Y));
}
