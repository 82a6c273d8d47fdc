use denoise::public_state::layout::{LayoutError, PublicStateLayout};
use denoise::steps::{split_trace_into_steps, StepSplitError};
use denoise::visualization::export::{build_nova_step_views, reshape_flat_to_matrix};

#[test]
fn layout_with_output() {
    let layout = PublicStateLayout::new(4, true, 2, 15, 2);
    assert_eq!(layout.x_range(), 0..4);
    assert_eq!(layout.y_range(), Some(4..8));
    assert_eq!(layout.commitment_index(), None);
    assert_eq!(layout.t_index(), 8);
    assert_eq!(layout.params_base(), 9);
    assert_eq!(layout.params_range(), 9..39);
    assert_eq!(layout.param_block_range(0), 9..24);
    assert_eq!(layout.param_block_range(1), 24..39);
    assert_eq!(layout.time_table_base(), 39);
    assert_eq!(layout.time_table_range(), 39..43);
    assert_eq!(layout.time_table_row_range(1), 41..43);
    assert_eq!(layout.state_len(), 43);
}

#[test]
fn layout_with_commitment() {
    let layout = PublicStateLayout::new_with_commitment(4, false, true, 1, 3, 1);
    assert_eq!(layout.y_range(), None);
    assert_eq!(layout.commitment_index(), Some(4));
    assert_eq!(layout.t_index(), 5);
    assert_eq!(layout.params_range(), 6..9);
    assert_eq!(layout.time_table_range(), 9..10);
    assert_eq!(layout.state_len(), 10);
    let both = PublicStateLayout::new_with_commitment(3, true, true, 0, 5, 2);
    assert_eq!(both.commitment_index(), Some(6));
    assert_eq!(both.t_index(), 7);
    assert_eq!(both.state_len(), 8);
}

#[test]
fn layout_checks() {
    let layout = PublicStateLayout::new(4, true, 2, 15, 2);
    assert_eq!(layout.assert_state_len(43), Ok(()));
    assert_eq!(layout.assert_state_len(42), Err(LayoutError::StateLenMismatch { got: 42, expected: 43 }));
    assert_eq!(layout.assert_block_idx(1), Ok(()));
    assert_eq!(layout.assert_block_idx(2), Err(LayoutError::BlockIndexOutOfRange { index: 2, total_iters: 2 }));
    assert_eq!(
        layout.assert_time_row_idx(5),
        Err(LayoutError::TimeRowIndexOutOfRange { index: 5, total_iters: 2 })
    );
}

#[test]
fn reshape_rows() {
    let m = reshape_flat_to_matrix(&[1, 2, 3, 4, 5, 6], 2, 3);
    assert_eq!(m, vec![vec![1, 2, 3], vec![4, 5, 6]]);
    assert_eq!(reshape_flat_to_matrix(&[], 0, 5), Vec::<Vec<i64>>::new());
}

#[test]
fn nova_step_views() {
    let views = build_nova_step_views(3, 2);
    assert_eq!(views.len(), 3);
    assert_eq!(views[0].nova_step_index, 0);
    assert_eq!(views[0].iter_start, 0);
    assert_eq!(views[0].iter_end, 1);
    assert_eq!(views[0].label, "Nova step 0: x_0 -> x_2");
    assert_eq!(views[2].iter_start, 4);
    assert_eq!(views[2].iter_end, 5);
    assert_eq!(views[2].label, "Nova step 2: x_4 -> x_6");
    let wide = build_nova_step_views(11, 10);
    assert_eq!(wide[10].label, "Nova step 10: x_100 -> x_110");
    assert!(build_nova_step_views(0, 0).is_empty());
}

#[test]
fn split_trace() {
    let steps = split_trace_into_steps(&[1, 2, 3, 4, 5, 6], 3, 2).unwrap();
    assert_eq!(steps, vec![vec![1, 2], vec![3, 4], vec![5, 6]]);
    assert_eq!(
        split_trace_into_steps(&[1, 2, 3], 2, 2),
        Err(StepSplitError::TraceLengthMismatch { got: 3, expected: 4 })
    );
    assert_eq!(split_trace_into_steps::<u8>(&[], 0, 7), Ok(vec![]));
}
