use denoise::activations::{ClippedReluLookupTable, ReluLookupTable};
use denoise::affine::{apply_affine_fixed_point, apply_affine_fixed_point_with_witness, try_apply_affine_fixed_point_with_witness};
use denoise::fixed_point::{checked_dot, floor_rescale, rescale_with_remainder, FixedPointConfig};

#[test]
fn floor_division_rounds_toward_negative_infinity() {
    assert_eq!(rescale_with_remainder(-7, 4), (-2, 1));
    assert_eq!(rescale_with_remainder(7, 4), (1, 3));
    assert_eq!(rescale_with_remainder(-8, 4), (-2, 0));
    assert_eq!(rescale_with_remainder(0, 16), (0, 0));
    assert_eq!(floor_rescale(-1, 16), -1);
    assert_eq!(floor_rescale(i64::MIN, 1), i64::MIN);
}

#[test]
fn floor_division_reconstructs_numerator() {
    for z in -50i64..50 {
        for s in 1i64..7 {
            let (q, r) = rescale_with_remainder(z, s);
            assert_eq!(q * s + r, z);
            assert!(0 <= r && r < s);
        }
    }
}

#[test]
fn checked_dot_accumulates_and_detects_overflow() {
    assert_eq!(checked_dot(5, &[1, 2, 3], &[4, 5, 6]), Some(5 + 4 + 10 + 18));
    assert_eq!(checked_dot(0, &[i64::MAX, 1], &[1, 1]), None);
    assert_eq!(checked_dot(0, &[i64::MAX], &[2]), None);
}

#[test]
fn relu_tables() {
    let relu = ReluLookupTable { min: -4, max: 4 };
    assert!(relu.contains(-4));
    assert!(!relu.contains(5));
    assert_eq!(relu.relu(-3), 0);
    assert_eq!(relu.relu(3), 3);
    let clipped = ClippedReluLookupTable { min: -8, max: 8, clip_max: 5 };
    assert_eq!(clipped.clipped_relu(-2), 0);
    assert_eq!(clipped.clipped_relu(4), 4);
    assert_eq!(clipped.clipped_relu(7), 5);
    assert!(!clipped.contains(9));
}

#[test]
fn config_builds_its_clipped_relu_table() {
    let config = FixedPointConfig {
        scale: 16,
        value_min: -128,
        value_max: 127,
        quotient_min: -128,
        quotient_max: 127,
        relu_min: -64,
        relu_max: 63,
        clip_max: 32,
    };
    let table = config.clipped_relu_table();
    assert_eq!(table.min, -64);
    assert_eq!(table.max, 63);
    assert_eq!(table.clip_max, 32);
}

#[test]
fn fixed_point_affine_rows() {
    let w = [[4, -2], [1, 1]];
    let b = [1, -1];
    let x = [3, 5];
    // row 0: raw = 12 - 10 = 2, floor(2 / 4) = 0, y = 1
    // row 1: raw = 8, floor(8 / 4) = 2, y = 1
    let (raw, q, r, y) = apply_affine_fixed_point_with_witness(&w, &b, &x, 4);
    assert_eq!(raw, [2, 8]);
    assert_eq!(q, [0, 2]);
    assert_eq!(r, [2, 0]);
    assert_eq!(y, [1, 1]);
    assert_eq!(apply_affine_fixed_point(&w, &b, &x, 4), [1, 1]);
    let neg = apply_affine_fixed_point(&[[-3]], &[0], &[3], 4);
    assert_eq!(neg, [-3]);
}

#[test]
fn fixed_point_affine_overflow_is_none() {
    assert_eq!(try_apply_affine_fixed_point_with_witness(&[[i64::MAX, 1]], &[0], &[1, 1], 1), None);
    assert_eq!(try_apply_affine_fixed_point_with_witness(&[[1]], &[i64::MAX], &[1], 1), None);
    assert!(try_apply_affine_fixed_point_with_witness(&[[1]], &[0], &[1], 1).is_some());
}
