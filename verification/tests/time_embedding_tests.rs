use denoise::error::TraceError;
use denoise::fixed_point::FixedPointConfig;
use denoise::models::denoise_padded::{
    build_z0_with_public_output, generate_padded_denoise_trace_with_computed_output,
    generate_padded_denoise_trace_with_expected_output, PaddedDenoiseShape, PaddedTraceError,
};
use denoise::models::denoise_time_embedding::{
    generate_fixed_point_denoise_time_embedding_trace, pad_denoise_time_embedding_step_params, pad_time_table_vec,
    FixedDenoiseTimeEmbeddingPublicParams, FixedDenoiseTimeEmbeddingStepParams,
};
use denoise::models::denoise_update::DenoiseUpdateMode;
use denoise::padding::{pad_vector_i64, PaddingError};

fn config() -> FixedPointConfig {
    FixedPointConfig {
        scale: 4,
        value_min: -16,
        value_max: 15,
        quotient_min: -32,
        quotient_max: 31,
        relu_min: -16,
        relu_max: 15,
        clip_max: 8,
    }
}

fn real_step() -> FixedDenoiseTimeEmbeddingStepParams<1, 1, 2, 1> {
    FixedDenoiseTimeEmbeddingStepParams::new([[4, 4]], [0], [[4]], [0], 4, -4)
}

#[test]
fn time_embedding_trace() {
    // u = [2 || 1]; hidden floor(12 / 4) = 3; eps = floor(12 / 4) = 3; x1 = 2 - 3 = -1.
    let params = FixedDenoiseTimeEmbeddingPublicParams::new(vec![real_step()], vec![[1]], config());
    assert_eq!(params.block_len(), 2 + 1 + 1 + 1 + 2);
    assert_eq!(params.time_table_len(), 1);
    let (z0, seq) = generate_fixed_point_denoise_time_embedding_trace(&params, [2]).unwrap();
    assert_eq!(z0, vec![2, 0, 4, 4, 0, 4, 0, 4, -4, 1]);
    assert_eq!(seq.len(), 1);
    assert_eq!(seq[0].mlp_input_int, [2, 1]);
    assert_eq!(seq[0].hidden_act_int, [3]);
    assert_eq!(seq[0].epsilon_int, [3]);
    assert_eq!(seq[0].x_i_plus_1_int, [-1]);
    assert_eq!(seq[0].t_int, 0);
}

#[test]
fn time_embedding_fused_mode() {
    // fused: floor((4 * 2 - 4 * 3) / 4) = -1 as well.
    let params = FixedDenoiseTimeEmbeddingPublicParams::new(vec![real_step()], vec![[1]], config())
        .with_update_mode(DenoiseUpdateMode::FusedFloor);
    let (_z0, seq) = generate_fixed_point_denoise_time_embedding_trace(&params, [2]).unwrap();
    assert_eq!(seq[0].x_i_plus_1_int, [-1]);
    assert_eq!(seq[0].alpha_x_int, [0]);
}

#[test]
fn time_embedding_state_out_of_range() {
    let params = FixedDenoiseTimeEmbeddingPublicParams::new(vec![real_step()], vec![[1]], config());
    assert_eq!(generate_fixed_point_denoise_time_embedding_trace(&params, [40]).err(), Some(TraceError::OutOfRange));
}

#[test]
fn padding_places_embedding_weights_after_max_state() {
    let padded: FixedDenoiseTimeEmbeddingStepParams<2, 2, 4, 2> =
        pad_denoise_time_embedding_step_params::<1, 1, 2, 1, 2, 2, 4, 2>(real_step());
    assert_eq!(padded.w1, [[4, 0, 4, 0], [0, 0, 0, 0]]);
    assert_eq!(padded.b1, [0, 0]);
    assert_eq!(padded.w2, [[4, 0], [0, 0]]);
    assert_eq!(padded.b2, [0, 0]);
    assert_eq!(padded.alpha, 4);
    assert_eq!(padded.beta, -4);
    let table: Vec<[i64; 2]> = pad_time_table_vec::<1, 2>(vec![[1], [5]]);
    assert_eq!(table, vec![[1, 0], [5, 0]]);
}

#[test]
fn padded_run_matches_real_run() {
    let real_params = FixedDenoiseTimeEmbeddingPublicParams::new(vec![real_step(), real_step()], vec![[1], [2]], config());
    let (_z, real_seq) = generate_fixed_point_denoise_time_embedding_trace(&real_params, [2]).unwrap();
    let padded_step = pad_denoise_time_embedding_step_params::<1, 1, 2, 1, 2, 2, 4, 2>(real_step());
    let padded_params = FixedDenoiseTimeEmbeddingPublicParams::new(
        vec![padded_step, padded_step],
        pad_time_table_vec::<1, 2>(vec![[1], [2]]),
        config(),
    );
    let x0: [i64; 2] = pad_vector_i64::<1, 2>([2]);
    let shape = PaddedDenoiseShape::new(1, 1, 2, 1, 2, 2, 4, 2);
    let (_z0, padded_seq, y) = generate_padded_denoise_trace_with_computed_output(&padded_params, x0, shape).unwrap();
    for t in 0..2 {
        assert_eq!(padded_seq[t].x_i_plus_1_int[0], real_seq[t].x_i_plus_1_int[0]);
        assert_eq!(padded_seq[t].x_i_plus_1_int[1], 0);
    }
    // x1 = -1; second step: u = [-1 || 2], hidden floor(4 / 4) = 1, eps = 1, x2 = -1 - 1 = -2.
    assert_eq!(real_seq[1].x_i_plus_1_int, [-2]);
    assert_eq!(y, [-2, 0]);
}

#[test]
fn padded_output_binding() {
    let padded_step = pad_denoise_time_embedding_step_params::<1, 1, 2, 1, 2, 2, 4, 2>(real_step());
    let params = FixedDenoiseTimeEmbeddingPublicParams::new(vec![padded_step], vec![[1, 0]], config());
    let shape = PaddedDenoiseShape::new(1, 1, 2, 1, 2, 2, 4, 2);
    let z0 = build_z0_with_public_output(&params, [2, 0], [-1, 0], shape).unwrap();
    assert_eq!(z0.len(), 2 + 2 + 1 + (2 * 4 + 2 + 2 * 2 + 2 + 2) + 2);
    assert_eq!(&z0[0..5], &[2, 0, -1, 0, 0]);
    assert_eq!(
        build_z0_with_public_output(&params, [2, 0], [-1, 3], shape),
        Err(PaddingError::NonZeroVectorEntry { index: 1, value: 3 })
    );
    assert!(generate_padded_denoise_trace_with_expected_output(&params, [2, 0], [-1, 0], shape).is_ok());
    assert_eq!(
        generate_padded_denoise_trace_with_expected_output(&params, [2, 0], [-1, 7], shape).err(),
        Some(PaddedTraceError::Padding(PaddingError::NonZeroVectorEntry { index: 1, value: 7 }))
    );
    assert_eq!(
        generate_padded_denoise_trace_with_expected_output(&params, [40, 0], [-1, 0], shape).err(),
        Some(PaddedTraceError::Trace(TraceError::OutOfRange))
    );
}
