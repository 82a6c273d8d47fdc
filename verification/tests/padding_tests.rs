use denoise::padding::{
    assert_zero_padding_matrix, assert_zero_padding_vector, pad_matrix_i64, pad_vector_i64, slice_real_vector,
    PaddingError,
};

#[test]
fn pad_then_slice_round_trips() {
    let padded: [i64; 4] = pad_vector_i64::<2, 4>([7, -3]);
    assert_eq!(padded, [7, -3, 0, 0]);
    assert_eq!(slice_real_vector::<2, 4>(&padded), [7, -3]);
    assert_eq!(assert_zero_padding_vector::<2, 4>(&padded), Ok(()));
}

#[test]
fn vector_padding_reports_first_nonzero_entry() {
    assert_eq!(
        assert_zero_padding_vector::<1, 4>(&[1, 0, 5, 6]),
        Err(PaddingError::NonZeroVectorEntry { index: 2, value: 5 })
    );
}

#[test]
fn matrix_padding() {
    let m: [[i64; 3]; 3] = pad_matrix_i64::<2, 2, 3, 3>([[1, 2], [3, 4]]);
    assert_eq!(m, [[1, 2, 0], [3, 4, 0], [0, 0, 0]]);
    assert_eq!(assert_zero_padding_matrix::<2, 2, 3, 3>(&m), Ok(()));
    let bad = [[1, 2, 0], [3, 4, 9], [0, 8, 0]];
    assert_eq!(
        assert_zero_padding_matrix::<2, 2, 3, 3>(&bad),
        Err(PaddingError::NonZeroMatrixEntry { row: 1, col: 2, value: 9 })
    );
}
