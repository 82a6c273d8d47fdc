use denoise::error::TraceError;
use denoise::fixed_point::FixedPointConfig;
use denoise::layers::conv2d::{
    apply_conv2d_fixed_point_with_witness, is_real_input_coord, is_real_kernel_coord, is_real_output_coord,
    try_apply_conv2d_fixed_point_with_witness, Conv2dPadding, Conv2dRealShape,
};
use denoise::models::denoise_conv::{
    assert_flat_image_padding_zero, assert_flat_output_padding_zero, assert_kernel_padding_zero,
    generate_fixed_point_denoise_conv_trace, generate_fixed_point_denoise_conv_trace_with_computed_output,
    generate_fixed_point_denoise_conv_trace_with_expected_output, FixedDenoiseConvPublicParams,
    FixedDenoiseConvStepParams,
};
use denoise::models::denoise_update::DenoiseUpdateMode;
use denoise::padding::PaddingError;
use denoise::public_state::layout::PublicStateLayout;

fn config() -> FixedPointConfig {
    FixedPointConfig {
        scale: 4,
        value_min: -16,
        value_max: 15,
        quotient_min: -16,
        quotient_max: 15,
        relu_min: -16,
        relu_max: 15,
        clip_max: 8,
    }
}

fn full_shape() -> Conv2dRealShape {
    Conv2dRealShape::full::<2, 2, 3, 3, 2, 2>()
}

fn identity_step() -> FixedDenoiseConvStepParams<2, 3, 3> {
    // kernel picks the centre pixel times 4 (1.0 at scale 4); time bias floor(16 / 4) - 4 = 0.
    FixedDenoiseConvStepParams::new([[0, 0, 0], [0, 4, 0], [0, 0, 0]], 0, [4, 0], -4, 4, -4)
}

fn public_params(shape: Conv2dRealShape) -> FixedDenoiseConvPublicParams<2, 3, 3> {
    FixedDenoiseConvPublicParams::new(
        vec![identity_step(), identity_step()],
        vec![[4, 0], [4, 0]],
        config(),
        Conv2dPadding { pad_h: 1, pad_w: 1 },
        shape,
        2,
    )
}

#[test]
fn conv2d_sums_the_padded_window() {
    let image = [[1, 2], [3, 4]];
    let kernel = [[1, 1, 1], [1, 1, 1], [1, 1, 1]];
    let w = apply_conv2d_fixed_point_with_witness::<2, 2, 3, 3, 2, 2>(&image, &kernel, 1, &Conv2dPadding { pad_h: 1, pad_w: 1 }, 3);
    assert_eq!(w.raw, [[10, 10], [10, 10]]);
    assert_eq!(w.quotient, [[3, 3], [3, 3]]);
    assert_eq!(w.remainder, [[1, 1], [1, 1]]);
    assert_eq!(w.output, [[4, 4], [4, 4]]);
    let w = apply_conv2d_fixed_point_with_witness::<2, 2, 3, 3, 2, 2>(&image, &kernel, 0, &Conv2dPadding { pad_h: 0, pad_w: 0 }, 1);
    // without padding, output (0, 0) reads rows/cols 0..3 of which only (0..2, 0..2) exist
    assert_eq!(w.raw[0][0], 10);
    assert_eq!(w.raw[1][1], 4);
    assert_eq!(w.raw[0][1], 6);
}

#[test]
fn conv2d_overflow_is_none() {
    let image = [[i64::MAX, 1], [1, 1]];
    let kernel = [[0, 0, 0], [0, 2, 0], [0, 0, 0]];
    assert!(try_apply_conv2d_fixed_point_with_witness::<2, 2, 3, 3, 2, 2>(&image, &kernel, 0, &Conv2dPadding { pad_h: 1, pad_w: 1 }, 1).is_none());
}

#[test]
fn real_coordinates() {
    let shape = Conv2dRealShape { ih_real: 2, iw_real: 1, kh_real: 3, kw_real: 2, oh_real: 1, ow_real: 2 };
    assert!(is_real_input_coord(1, 0, &shape));
    assert!(!is_real_input_coord(1, 1, &shape));
    assert!(!is_real_kernel_coord(0, 2, &shape));
    assert!(!is_real_output_coord(1, 0, &shape));
    assert!(shape.check_fits::<2, 2, 3, 3, 2, 2>());
    assert!(!shape.check_fits::<2, 2, 2, 3, 2, 2>());
}

#[test]
fn conv_padding_checks_report_first_nonzero() {
    let shape = Conv2dRealShape { ih_real: 2, iw_real: 1, kh_real: 2, kw_real: 2, oh_real: 1, ow_real: 2 };
    assert_eq!(assert_flat_image_padding_zero::<2, 2>(&[1, 0, 3, 0], &shape, "x"), Ok(()));
    assert_eq!(
        assert_flat_image_padding_zero::<2, 2>(&[1, 0, 3, 7], &shape, "x"),
        Err(PaddingError::NonZeroMatrixEntry { row: 1, col: 1, value: 7 })
    );
    assert_eq!(
        assert_flat_output_padding_zero::<2, 2>(&[1, 2, 0, 5], &shape, "eps"),
        Err(PaddingError::NonZeroMatrixEntry { row: 1, col: 1, value: 5 })
    );
    assert_eq!(
        assert_kernel_padding_zero::<3, 3>(&[[1, 1, 0], [1, 1, 2], [0, 3, 0]], &shape),
        Err(PaddingError::NonZeroMatrixEntry { row: 1, col: 2, value: 2 })
    );
    assert_eq!(assert_kernel_padding_zero::<3, 3>(&[[1, 1, 0], [1, 1, 0], [0, 0, 0]], &shape), Ok(()));
}

#[test]
fn conv_params_flatten() {
    let step = identity_step();
    assert_eq!(FixedDenoiseConvStepParams::<2, 3, 3>::block_len(), 15);
    assert_eq!(step.flatten_i64(), vec![0, 0, 0, 0, 4, 0, 0, 0, 0, 0, 4, 0, -4, 4, -4]);
    let pp = public_params(full_shape());
    assert_eq!(pp.total_iters(), 2);
    assert_eq!(pp.block_len(), 15);
    assert_eq!(pp.update_mode, DenoiseUpdateMode::DoubleFloor);
}

#[test]
fn conv_denoise_trace() {
    // eps = clipped_relu(x) = [1, 0, 3, 0]; x1 = x - eps = [0, -2, 0, 0]; then eps = 0 and x2 = x1.
    let pp = public_params(full_shape());
    let (z0, seq) = generate_fixed_point_denoise_conv_trace::<4, 2, 2, 2, 3, 3, 2, 2>(&pp, [1, -2, 3, 0]).unwrap();
    assert_eq!(z0.len(), 4 + 1 + 2 * 15 + 2 * 2);
    assert_eq!(&z0[0..5], &[1, -2, 3, 0, 0]);
    assert_eq!(seq.len(), 2);
    assert_eq!(seq[0].time_raw_int, 16);
    assert_eq!(seq[0].time_quotient_int, 4);
    assert_eq!(seq[0].time_remainder_int, 0);
    assert_eq!(seq[0].time_bias_int, 0);
    assert_eq!(seq[0].conv_witness.raw, [[4, -8], [12, 0]]);
    assert_eq!(seq[0].conv_witness.output, [[1, -2], [3, 0]]);
    assert_eq!(seq[0].epsilon_int, [1, 0, 3, 0]);
    assert_eq!(seq[0].alpha_x_int, [1, -2, 3, 0]);
    assert_eq!(seq[0].beta_epsilon_int, [-1, 0, -3, 0]);
    assert_eq!(seq[0].x_i_plus_1_int, [0, -2, 0, 0]);
    assert_eq!(seq[1].t_int, 1);
    assert_eq!(seq[1].x_i_int, [0, -2, 0, 0]);
    assert_eq!(seq[1].x_i_plus_1_int, [0, -2, 0, 0]);
}

#[test]
fn conv_denoise_trace_fused() {
    let pp = public_params(full_shape()).with_update_mode(DenoiseUpdateMode::FusedFloor);
    let (_z0, seq) = generate_fixed_point_denoise_conv_trace::<4, 2, 2, 2, 3, 3, 2, 2>(&pp, [1, -2, 3, 0]).unwrap();
    assert_eq!(seq[0].x_i_plus_1_int, [0, -2, 0, 0]);
    assert_eq!(seq[0].alpha_x_int, [0, 0, 0, 0]);
}

#[test]
fn conv_denoise_output_binding_matches_layout() {
    let pp = public_params(full_shape());
    let (z0, seq, y) = generate_fixed_point_denoise_conv_trace_with_computed_output::<4, 2, 2, 2, 3, 3, 2, 2>(&pp, [1, -2, 3, 0]).unwrap();
    assert_eq!(y, [0, -2, 0, 0]);
    assert_eq!(seq[1].x_i_plus_1_int, y);
    let layout = PublicStateLayout::new(4, true, 2, 15, 2);
    assert_eq!(layout.assert_state_len(z0.len()), Ok(()));
    assert_eq!(&z0[layout.y_range().unwrap()], &y);
    assert_eq!(z0[layout.t_index()], 0);
    assert_eq!(&z0[layout.param_block_range(1)], identity_step().flatten_i64().as_slice());
    assert_eq!(&z0[layout.time_table_row_range(1)], &[4, 0]);
    let (z0b, _seq) = generate_fixed_point_denoise_conv_trace_with_expected_output::<4, 2, 2, 2, 3, 3, 2, 2>(&pp, [1, -2, 3, 0], y).unwrap();
    assert_eq!(z0b, z0);
}

#[test]
fn conv_denoise_errors() {
    let pp = public_params(full_shape());
    assert_eq!(
        generate_fixed_point_denoise_conv_trace::<4, 2, 2, 2, 3, 3, 2, 2>(&pp, [20, 0, 0, 0]).err(),
        Some(TraceError::OutOfRange)
    );
    let narrow = Conv2dRealShape { ih_real: 2, iw_real: 1, kh_real: 3, kw_real: 3, oh_real: 2, ow_real: 1 };
    let pp = public_params(narrow);
    assert!(generate_fixed_point_denoise_conv_trace::<4, 2, 2, 2, 3, 3, 2, 2>(&pp, [1, 0, 3, 0]).is_ok());
    assert_eq!(
        generate_fixed_point_denoise_conv_trace::<4, 2, 2, 2, 3, 3, 2, 2>(&pp, [1, 2, 3, 0]).err(),
        Some(TraceError::OutOfRange)
    );
    assert_eq!(
        generate_fixed_point_denoise_conv_trace_with_expected_output::<4, 2, 2, 2, 3, 3, 2, 2>(&pp, [1, 0, 3, 0], [0, 5, 0, 0]).err(),
        Some(TraceError::OutOfRange)
    );
}
