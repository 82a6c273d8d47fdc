use denoise::error::TraceError;
use denoise::fixed_point::FixedPointConfig;
use denoise::models::denoise_fixed_point::{
    generate_fixed_point_denoise_trace, mlp_block_len, param_block_len, state_len, FixedDenoisePublicParams,
    FixedDenoiseStepParams,
};
use denoise::models::denoise_update::{
    compute_denoise_update_witness, try_compute_denoise_update_witness, DenoiseUpdateMode, DenoiseUpdateWitness,
};
use denoise::models::mlp_fixed_point::{
    generate_fixed_point_mlp_trace, FixedMlpClippedReluPublicParams, FixedMlpClippedReluStepParams,
};

fn config() -> FixedPointConfig {
    FixedPointConfig {
        scale: 4,
        value_min: -16,
        value_max: 15,
        quotient_min: -32,
        quotient_max: 31,
        relu_min: -16,
        relu_max: 15,
        clip_max: 8,
    }
}

#[test]
fn update_modes_differ() {
    // DoubleFloor: floor(15 / 4) + floor(3 / 4) = 3; FusedFloor: floor(18 / 4) = 4.
    let double = compute_denoise_update_witness(&[5], &[3], 3, 1, 4, DenoiseUpdateMode::DoubleFloor);
    let fused = compute_denoise_update_witness(&[5], &[3], 3, 1, 4, DenoiseUpdateMode::FusedFloor);
    assert_eq!(*double.x_next(), [3]);
    assert_eq!(*fused.x_next(), [4]);
    assert_eq!(
        double,
        DenoiseUpdateWitness::DoubleFloor {
            alpha_raw: [15],
            alpha_q: [3],
            alpha_r: [3],
            beta_raw: [3],
            beta_q: [0],
            beta_r: [3],
            x_next: [3],
        }
    );
    assert_eq!(fused, DenoiseUpdateWitness::FusedFloor { fused_raw: [18], fused_q: [4], fused_r: [2], x_next: [4] });
}

#[test]
fn update_with_negative_terms_floors() {
    // floor(-14 / 4) = -4
    let w = compute_denoise_update_witness(&[3], &[7], 4, -2, 4, DenoiseUpdateMode::DoubleFloor);
    assert_eq!(*w.x_next(), [-1]);
}

#[test]
fn update_overflow_is_none() {
    assert_eq!(try_compute_denoise_update_witness(&[i64::MAX], &[0], 2, 1, 4, DenoiseUpdateMode::DoubleFloor), None);
    assert_eq!(try_compute_denoise_update_witness(&[i64::MAX / 2], &[i64::MAX / 2], 2, 2, 4, DenoiseUpdateMode::FusedFloor), None);
}

#[test]
fn default_update_mode_is_double_floor() {
    assert_eq!(DenoiseUpdateMode::default(), DenoiseUpdateMode::DoubleFloor);
    assert_eq!(*DenoiseUpdateWitness::<2>::zero_double_floor().x_next(), [0, 0]);
    assert_eq!(*DenoiseUpdateWitness::<2>::zero_fused_floor().x_next(), [0, 0]);
}

fn mlp_step() -> FixedMlpClippedReluStepParams<1, 1> {
    FixedMlpClippedReluStepParams::new([[4]], [1], [[8]], [-1])
}

#[test]
fn fixed_point_mlp_trace() {
    // x0 = 3: hidden floor(12 / 4) + 1 = 4, clipped 4; output floor(32 / 4) - 1 = 7.
    // x1 = 7: hidden floor(28 / 4) + 1 = 8, clipped 8; output floor(64 / 4) - 1 = 15.
    let params = FixedMlpClippedReluPublicParams::new(vec![mlp_step(), mlp_step()], config());
    assert_eq!(params.total_iters(), 2);
    let (z0, seq) = generate_fixed_point_mlp_trace(&params, [3]).unwrap();
    assert_eq!(z0, vec![3, 4, 1, 8, -1, 4, 1, 8, -1]);
    assert_eq!(seq.len(), 2);
    assert_eq!(seq[0].x_i_int, [3]);
    assert_eq!(seq[0].hidden_raw_int, [12]);
    assert_eq!(seq[0].hidden_act_int, [4]);
    assert_eq!(seq[0].output_raw_int, [32]);
    assert_eq!(seq[0].x_i_plus_1_int, [7]);
    assert_eq!(seq[1].x_i_int, [7]);
    assert_eq!(seq[1].hidden_act_int, [8]);
    assert_eq!(seq[1].x_i_plus_1_int, [15]);
}

#[test]
fn fixed_point_mlp_trace_out_of_table_range() {
    // x2 = 15: hidden floor(60 / 4) + 1 = 16 is outside the table's [-16, 15].
    let params = FixedMlpClippedReluPublicParams::new(vec![mlp_step(), mlp_step(), mlp_step()], config());
    assert_eq!(generate_fixed_point_mlp_trace(&params, [3]).err(), Some(TraceError::OutOfRange));
    let params = FixedMlpClippedReluPublicParams::new(vec![mlp_step()], config());
    assert!(generate_fixed_point_mlp_trace(&params, [16]).is_err());
}

#[test]
fn fixed_point_denoise_trace() {
    // eps = MLP(3) = 7; x1 = floor(4 * 3 / 4) + floor(-2 * 7 / 4) = 3 - 4 = -1.
    let step = FixedDenoiseStepParams::new(mlp_step(), 4, -2);
    assert_eq!(step.flatten_i64(), vec![4, 1, 8, -1, 4, -2]);
    let params = FixedDenoisePublicParams::new(vec![step], config());
    assert_eq!(params.total_iters(), 1);
    assert_eq!(params.block_len(), 6);
    let (z0, seq) = generate_fixed_point_denoise_trace(&params, [3]).unwrap();
    assert_eq!(z0, vec![3, 4, 1, 8, -1, 4, -2]);
    assert_eq!(seq[0].epsilon_int, [7]);
    assert_eq!(seq[0].alpha_x_int, [3]);
    assert_eq!(seq[0].beta_epsilon_int, [-4]);
    assert_eq!(seq[0].beta_remainder_int, [2]);
    assert_eq!(seq[0].x_i_plus_1_int, [-1]);
}

#[test]
fn denoise_block_lengths() {
    assert_eq!(mlp_block_len::<2, 3>(), 3 * 2 + 3 + 2 * 3 + 2);
    assert_eq!(param_block_len::<2, 3>(), 3 * 2 + 3 + 2 * 3 + 2 + 2);
    assert_eq!(state_len::<2, 3>(5), 2 + 5 * 19);
}
