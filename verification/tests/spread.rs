use morton::spread::{spread2_16, spread3_21, spread3_5, spread3_5x4, unspread2_16, unspread3_21};

#[test]
fn spread2_16_examples() {
    assert_eq!(spread2_16(0), 0);
    assert_eq!(spread2_16(1), 1);
    assert_eq!(spread2_16(0b101), 0b10001);
    assert_eq!(spread2_16(0xFFFF), 0x55555555);
    // bits 16 and above of the input are ignored
    assert_eq!(spread2_16(0xFFFF_0000), 0);
    assert_eq!(spread2_16(0x0001_0001), 1);
}

#[test]
fn unspread2_16_examples() {
    assert_eq!(unspread2_16(0), 0);
    assert_eq!(unspread2_16(1), 1);
    assert_eq!(unspread2_16(0x55555555), 0xFFFF);
    // odd bits of the input are ignored
    assert_eq!(unspread2_16(0xAAAAAAAA), 0);
    assert_eq!(unspread2_16(0xFFFFFFFF), 0xFFFF);
}

#[test]
fn spread2_16_round_trip() {
    for x in [0u32, 1, 2, 3, 0x1234, 0x8000, 0xFFFE, 0xFFFF] {
        assert_eq!(unspread2_16(spread2_16(x)), x);
    }
}

#[test]
fn spread3_21_examples() {
    assert_eq!(spread3_21(0), 0);
    assert_eq!(spread3_21(1), 1);
    assert_eq!(spread3_21(0b101), 0x41);
    assert_eq!(spread3_21(0x1FFFFF), 0x1249249249249249);
    // bits 21 and above of the input are ignored
    assert_eq!(spread3_21(0xFFE0_0000), 0);
}

#[test]
fn unspread3_21_examples() {
    assert_eq!(unspread3_21(0), 0);
    assert_eq!(unspread3_21(1), 1);
    assert_eq!(unspread3_21(0x1249249249249249), 0x1FFFFF);
    // bits away from multiples of three are ignored
    assert_eq!(unspread3_21(0x2492492492492492), 0);
    assert_eq!(unspread3_21(0xFFFFFFFFFFFFFFFF), 0x1FFFFF);
}

#[test]
fn spread3_21_round_trip() {
    for x in [0u32, 1, 2, 7, 0x12345, 0x100000, 0x1FFFFE, 0x1FFFFF] {
        assert_eq!(unspread3_21(spread3_21(x)), x);
    }
}

#[test]
fn spread3_5_examples() {
    assert_eq!(spread3_5(0), 0);
    assert_eq!(spread3_5(1), 1);
    assert_eq!(spread3_5(0b101), 0x41);
    assert_eq!(spread3_5(0x1F), 0x1249);
    // bits 5 and above of the input are ignored
    assert_eq!(spread3_5(0xFFE0), 0);
}

#[test]
fn spread3_5x4_examples() {
    assert_eq!(spread3_5x4(0), 0);
    // each 16-bit lane is spread independently
    assert_eq!(spread3_5x4(0x001F_0003_0001_0000), 0x1249_0009_0001_0000);
    assert_eq!(spread3_5x4(0x001F_001F_001F_001F), 0x1249_1249_1249_1249);
    // lane bits 5 and above are ignored
    assert_eq!(spread3_5x4(0xFFE0_FFE0_FFE0_FFE0), 0);
}

#[test]
fn spread3_5_agrees_with_wide_variant() {
    for x in [0u16, 1, 2, 0b101, 0x13, 0x1F] {
        let lanes = ((x as u64) << 48) | ((x as u64) << 32) | ((x as u64) << 16) | (x as u64);
        let spread = spread3_5(x) as u64;
        let expected = (spread << 48) | (spread << 32) | (spread << 16) | spread;
        assert_eq!(spread3_5x4(lanes), expected);
    }
}
