use denoise::activations::{ClippedReluLookupTable, ReluLookupTable};
use denoise::error::TraceError;
use denoise::models::affine_lookup::{
    generate_affine_relu_lookup_trace, IntAffineClippedReluLookupParams, IntAffineReluLookupParams,
};
use denoise::models::mlp_clipped_relu::{
    apply_step_i64, generate_mlp_clipped_relu_trace, IntMlpClippedReluStepParams, MlpClippedReluPublicParams,
};

fn table() -> ClippedReluLookupTable {
    ClippedReluLookupTable { min: -10, max: 10, clip_max: 5 }
}

fn step() -> IntMlpClippedReluStepParams<1, 1> {
    IntMlpClippedReluStepParams::new([[2]], [1], [[3]], [-1])
}

#[test]
fn integer_mlp_step() {
    // hidden 2 * 2 + 1 = 5, clipped 5; next 3 * 5 - 1 = 14
    assert_eq!(apply_step_i64(&step(), &[2], &table()), Some(([5], [5], [14])));
    // hidden 2 * 4 + 1 = 9, clipped to 5
    assert_eq!(apply_step_i64(&step(), &[4], &table()), Some(([9], [5], [14])));
    assert_eq!(apply_step_i64(&step(), &[i64::MAX], &table()), None);
    assert_eq!(IntMlpClippedReluStepParams::<1, 1>::block_len(), 4);
    assert_eq!(step().flatten_i64(), vec![2, 1, 3, -1]);
}

#[test]
fn integer_mlp_trace() {
    let params = MlpClippedReluPublicParams::new(vec![step()], table());
    assert_eq!(params.total_iters(), 1);
    let (z0, seq) = generate_mlp_clipped_relu_trace(&params, [2]).unwrap();
    assert_eq!(z0, vec![2, 2, 1, 3, -1]);
    assert_eq!(seq[0].hidden_affine_int, [5]);
    assert_eq!(seq[0].hidden_act_int, [5]);
    assert_eq!(seq[0].x_i_plus_1_int, [14]);
    // second step: hidden 2 * 14 + 1 = 29 is outside the table's [-10, 10]
    let params = MlpClippedReluPublicParams::new(vec![step(), step()], table());
    assert_eq!(generate_mlp_clipped_relu_trace(&params, [2]).err(), Some(TraceError::OutOfRange));
}

#[test]
fn affine_relu_trace() {
    let params = IntAffineReluLookupParams::new([[1, 1], [0, -1]], [0, 1], ReluLookupTable { min: -10, max: 10 });
    // x1 = relu([5, -2]) = [5, 0]; x2 = relu([5, 1]) = [5, 1]
    let (z0, seq) = generate_affine_relu_lookup_trace(&params, [2, 3], 2).unwrap();
    assert_eq!(z0, vec![2, 3]);
    assert_eq!(seq[0].affine_out_int, [5, -2]);
    assert_eq!(seq[0].x_i_plus_1_int, [5, 0]);
    assert_eq!(seq[1].x_i_int, [5, 0]);
    assert_eq!(seq[1].affine_out_int, [5, 1]);
    assert_eq!(seq[1].x_i_plus_1_int, [5, 1]);
    let (_z0, empty) = generate_affine_relu_lookup_trace(&params, [2, 3], 0).unwrap();
    assert!(empty.is_empty());
}

#[test]
fn affine_relu_trace_outside_table() {
    let params = IntAffineReluLookupParams::new([[5, 5], [0, 1]], [0, 0], ReluLookupTable { min: -10, max: 10 });
    assert_eq!(generate_affine_relu_lookup_trace(&params, [2, 3], 1).err(), Some(TraceError::OutOfRange));
}

#[test]
fn affine_clipped_relu_params() {
    let p = IntAffineClippedReluLookupParams::new([[1]], [2], table());
    assert_eq!(p.a, [[1]]);
    assert_eq!(p.b, [2]);
    assert_eq!(p.clipped_relu_table.clip_max, 5);
}
