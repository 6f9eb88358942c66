use quantedge_ta::fixed::{floor_div, magnitude, mul_floor, ratio, sqrt_floor};
use quantedge_ta::{Price, ONE};

#[test]
fn floor_div_rounds_toward_negative_infinity() {
    assert_eq!(floor_div(7, 2), 3);
    assert_eq!(floor_div(-7, 2), -4);
    assert_eq!(floor_div(-8, 2), -4);
    assert_eq!(floor_div(0, 5), 0);
    assert_eq!(floor_div(-1, 65537), -1);
    assert_eq!(floor_div(i128::MIN, 1), i128::MIN);
    assert_eq!(floor_div(i128::MAX, 3), i128::MAX / 3);
}

#[test]
fn mul_floor_is_the_rounded_product() {
    let one = ONE as u128;
    assert_eq!(mul_floor(3 * one, 5 * one), 15 * one);
    assert_eq!(mul_floor(one / 2, one / 2), one / 4);
    assert_eq!(mul_floor(1, 1), 0);
    assert_eq!(mul_floor(1 << 24, 1 << 24), 1);
    assert_eq!(mul_floor((1 << 24) + 1, (1 << 24) - 1), 0);
    assert_eq!(mul_floor(0, 1 << 80), 0);
    assert_eq!(mul_floor(1 << 80, 1 << 80), 1 << 112);
    let a: u128 = 0x1234_5678_9abc_def0_1234;
    let b: u128 = 0x0fed_cba9_8765_4321_0fed;
    // (a * b) >> 48 by halves: a = ah * 2^40 + al
    let (ah, al) = (a >> 40, a & ((1 << 40) - 1));
    let expected = ((ah * b) + ((al * b) >> 40)) >> 8;
    assert_eq!(mul_floor(a, b), expected);
}

#[test]
fn ratio_is_the_rounded_quotient() {
    let one = ONE as u128;
    assert_eq!(ratio(1, 2), one / 2);
    assert_eq!(ratio(1, 3), one / 3);
    assert_eq!(ratio(2, 3), 2 * one / 3);
    assert_eq!(ratio(0, 7), 0);
    assert_eq!(ratio(300, 4), 75 * one);
    assert_eq!(ratio(65535, 1), 65535 * one);
    let den: u128 = 1 << 100;
    assert_eq!(ratio(den, den), one);
    assert_eq!(ratio(den - 1, den), one - 1);
    assert_eq!(ratio(65535 * den, den), 65535 * one);
}

#[test]
fn sqrt_floor_is_the_rounded_root() {
    let one = ONE as u128;
    assert_eq!(sqrt_floor(0), 0);
    assert_eq!(sqrt_floor(one), one);
    assert_eq!(sqrt_floor(4 * one), 2 * one);
    assert_eq!(sqrt_floor(one / 4), one / 2);
    // sqrt(1 raw unit) = 2^-24 units = 2^24 raw
    assert_eq!(sqrt_floor(1), 1 << 24);
    assert_eq!(sqrt_floor(1 << 110), 1 << 79);
    // sqrt(2) = 1.41421356237309504880...
    let r = sqrt_floor(2 * one);
    assert_eq!(r, 398_065_729_532_860);
    assert!(r * r <= 2 * one * one && 2 * one * one < (r + 1) * (r + 1));
    for v in [2u128, 3, 5, 1000, one - 1, one + 1, 12345 * one + 6789] {
        let r = sqrt_floor(v);
        // r^2 <= v * ONE < (r + 1)^2, compared in halves to stay in range
        assert!(r * r / one <= v);
        assert!(((r + 1) * (r + 1) - 1) / one >= v);
    }
}

#[test]
fn magnitude_drops_the_sign() {
    assert_eq!(magnitude(0), 0);
    assert_eq!(magnitude(-5), 5);
    assert_eq!(magnitude(5), 5);
    assert_eq!(magnitude(Price::MAX), Price::MAX as u128);
    assert_eq!(magnitude(Price::MIN + 1), Price::MAX as u128);
}
