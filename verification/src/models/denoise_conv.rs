use vstd::prelude::*;

use crate::activations::clipped_relu_spec;
use crate::error::TraceError;
use crate::fixed_point::{checked_dot, dot_fits, dot_from, fits_i64, ints, rescale_with_remainder, FixedPointConfig};
use crate::layers::conv2d::{
    conv_fits, conv_output, conv_raw, conv_witness_matches, image_flat, is_real_kernel_coord,
    try_apply_conv2d_fixed_point_with_witness, Conv2dFixedPointWitness, Conv2dPadding, Conv2dRealShape,
};
use crate::matrix::{flat_matrix, push_matrix_row_major, push_vector};
use crate::models::denoise_time_embedding::{push_table, table_flat, update_quotients_ok};
use crate::models::denoise_update::{
    denoise_update_fits, denoise_update_matches, denoise_update_spec, try_compute_denoise_update_witness,
    DenoiseUpdateMode, DenoiseUpdateWitness,
};
use crate::padding::PaddingError;
use crate::public_state::layout::PublicStateLayout;

verus! {

/// Public parameters of one convolutional denoise iteration: a single-channel `KH x KW` kernel
/// and bias, a timestep projection `time_w . e + time_b` added to the bias, and the schedule
/// `(alpha, beta)`.
#[derive(Clone, Copy, Debug)]
pub struct FixedDenoiseConvStepParams<const TE: usize, const KH: usize, const KW: usize> {
    pub kernel: [[i64; KW]; KH],
    pub conv_bias: i64,
    pub time_w: [i64; TE],
    pub time_b: i64,
    pub alpha: i64,
    pub beta: i64,
}

/// The per-iteration parameters, the public embedding table (one row per iteration), the
/// fixed-point configuration, the convolution's zero padding, the real shapes inside the maximum
/// shape, the real embedding width and the update mode.
#[derive(Clone, Debug)]
pub struct FixedDenoiseConvPublicParams<const TE: usize, const KH: usize, const KW: usize> {
    pub params_seq: Vec<FixedDenoiseConvStepParams<TE, KH, KW>>,
    pub time_table: Vec<[i64; TE]>,
    pub config: FixedPointConfig,
    pub padding: Conv2dPadding,
    pub real_shape: Conv2dRealShape,
    pub te_real: usize,
    pub update_mode: DenoiseUpdateMode,
}

/// Length of one flattened block `[kernel | conv_bias | time_w | time_b | alpha | beta]`.
pub open spec fn conv_block_len_spec(te: nat, kh: nat, kw: nat) -> nat {
    kh * kw + 1 + te + 1 + 2
}

impl<const TE: usize, const KH: usize, const KW: usize> FixedDenoiseConvStepParams<TE, KH, KW> {
    pub fn new(
        kernel: [[i64; KW]; KH],
        conv_bias: i64,
        time_w: [i64; TE],
        time_b: i64,
        alpha: i64,
        beta: i64,
    ) -> (s: Self)
        ensures
            s == (Self { kernel, conv_bias, time_w, time_b, alpha, beta }),
    {
        Self { kernel, conv_bias, time_w, time_b, alpha, beta }
    }

    /// `KH*KW + 1 + TE + 1 + 2`.
    pub fn block_len() -> (len: usize)
        requires
            conv_block_len_spec(TE as nat, KH as nat, KW as nat) <= usize::MAX,
        ensures
            len == conv_block_len_spec(TE as nat, KH as nat, KW as nat),
    {
        KH * KW + 1 + TE + 1 + 2
    }

    /// Flatten layout: `[kernel row-major | conv_bias | time_w | time_b | alpha | beta]`.
    pub open spec fn flatten_spec(&self) -> Seq<i64> {
        (flat_matrix(self.kernel).push(self.conv_bias) + self.time_w@).push(self.time_b).push(
            self.alpha,
        ).push(self.beta)
    }

    /// Flatten layout: `[kernel row-major | conv_bias | time_w | time_b | alpha | beta]`.
    pub fn flatten_i64(&self) -> (out: Vec<i64>)
        ensures
            out@ == self.flatten_spec(),
    {
        let mut out: Vec<i64> = Vec::new();
        push_matrix_row_major(&mut out, &self.kernel);
        out.push(self.conv_bias);
        push_vector(&mut out, &self.time_w);
        out.push(self.time_b);
        out.push(self.alpha);
        out.push(self.beta);
        out
    }
}

/// The flattened block has exactly `block_len` entries.
pub proof fn lemma_conv_flatten_len<const TE: usize, const KH: usize, const KW: usize>(
    p: FixedDenoiseConvStepParams<TE, KH, KW>,
)
    ensures
        p.flatten_spec().len() == conv_block_len_spec(TE as nat, KH as nat, KW as nat),
{
}

impl<const TE: usize, const KH: usize, const KW: usize> FixedDenoiseConvPublicParams<TE, KH, KW> {
    /// New parameters in the default `DoubleFloor` mode: one table row per iteration, the real
    /// embedding width and the real kernel inside the maximum shape.
    pub fn new(
        params_seq: Vec<FixedDenoiseConvStepParams<TE, KH, KW>>,
        time_table: Vec<[i64; TE]>,
        config: FixedPointConfig,
        padding: Conv2dPadding,
        real_shape: Conv2dRealShape,
        te_real: usize,
    ) -> (s: Self)
        requires
            params_seq@.len() == time_table@.len(),
            te_real <= TE,
            real_shape.kh_real <= KH,
            real_shape.kw_real <= KW,
        ensures
            s.params_seq@ == params_seq@,
            s.time_table@ == time_table@,
            s.config == config,
            s.padding == padding,
            s.real_shape == real_shape,
            s.te_real == te_real,
            s.update_mode == DenoiseUpdateMode::DoubleFloor,
    {
        Self {
            params_seq,
            time_table,
            config,
            padding,
            real_shape,
            te_real,
            update_mode: DenoiseUpdateMode::DoubleFloor,
        }
    }

    /// The same parameters with another update mode.
    pub fn with_update_mode(self, update_mode: DenoiseUpdateMode) -> (s: Self)
        ensures
            s.params_seq@ == self.params_seq@,
            s.time_table@ == self.time_table@,
            s.config == self.config,
            s.padding == self.padding,
            s.real_shape == self.real_shape,
            s.te_real == self.te_real,
            s.update_mode == update_mode,
    {
        let mut s = self;
        s.update_mode = update_mode;
        s
    }

    /// The number of iterations: one per parameter block.
    pub fn total_iters(&self) -> (n: usize)
        ensures
            n == self.params_seq@.len(),
    {
        self.params_seq.len()
    }

    /// Length of one flattened parameter block.
    pub fn block_len(&self) -> (len: usize)
        requires
            conv_block_len_spec(TE as nat, KH as nat, KW as nat) <= usize::MAX,
        ensures
            len == conv_block_len_spec(TE as nat, KH as nat, KW as nat),
    {
        FixedDenoiseConvStepParams::<TE, KH, KW>::block_len()
    }
}

} // verus!

verus! {

/// The entries of a slice of `i64`, as mathematical integers.
pub open spec fn ints_seq(s: Seq<i64>) -> Seq<int> {
    Seq::new(s.len(), |i: int| s[i] as int)
}

/// Flat index `i` of a row-major grid with `cols` columns is the coordinate
/// `(i / cols, i % cols)`; it is dimension padding unless it lies in the real
/// `real_rows x real_cols` rectangle.
pub open spec fn is_padding_index(i: int, cols: int, real_rows: int, real_cols: int) -> bool {
    !(i / cols < real_rows && i % cols < real_cols)
}

/// Every padding coordinate among the first `len` entries of the row-major grid holds zero.
pub open spec fn grid_padding_zero(img: Seq<int>, len: int, cols: int, real_rows: int, real_cols: int) -> bool {
    forall|i: int| 0 <= i < len && is_padding_index(i, cols, real_rows, real_cols) ==> #[trigger] img[i] == 0
}

/// Every kernel entry outside the real `kh_real x kw_real` rectangle is zero.
pub open spec fn kernel_padding_zero<const KH: usize, const KW: usize>(
    kernel: [[i64; KW]; KH],
    shape: Conv2dRealShape,
) -> bool {
    forall|r: int, c: int|
        0 <= r < KH && 0 <= c < KW && !(r < shape.kh_real && c < shape.kw_real) ==> #[trigger] kernel[r][c]
            == 0
}

/// Flat index `i < rows * cols` splits into the row `i / cols < rows` and the column
/// `i % cols < cols`, and `i == (i / cols) * cols + i % cols`.
pub proof fn lemma_grid_index(i: int, rows: int, cols: int)
    requires
        0 <= rows,
        0 <= i < rows * cols,
    ensures
        cols > 0,
        0 <= i / cols < rows,
        0 <= i % cols < cols,
        i == (i / cols) * cols + i % cols,
{
    if cols <= 0 {
        assert(rows * cols <= 0) by (nonlinear_arith)
            requires
                cols <= 0,
                0 <= rows,
        ;
    }
    vstd::arithmetic::div_mod::lemma_fundamental_div_mod(i, cols);
    vstd::arithmetic::div_mod::lemma_div_pos_is_pos(i, cols);
    vstd::arithmetic::mul::lemma_mul_is_commutative(rows, cols);
    vstd::arithmetic::mul::lemma_mul_is_commutative(i / cols, cols);
    vstd::arithmetic::div_mod::lemma_multiply_divide_lt(i, cols, rows);
}

/// Checks the zero padding of a row-major `rows x cols` grid; on failure names the first
/// nonzero padding coordinate in row-major order.
fn check_grid_padding_zero(
    flat: &[i64],
    rows: usize,
    cols: usize,
    real_rows: usize,
    real_cols: usize,
) -> (res: Result<(), PaddingError>)
    requires
        flat@.len() == rows * cols,
    ensures
        res is Ok <==> grid_padding_zero(ints_seq(flat@), rows * cols, cols as int, real_rows as int, real_cols as int),
        res matches Err(PaddingError::NonZeroMatrixEntry { row, col, value }) ==> {
            &&& row < rows && col < cols
            &&& !(row < real_rows && col < real_cols)
            &&& row * cols + col < rows * cols
            &&& value == flat@[row * cols + col]
            &&& value != 0
            &&& forall|k: int|
                0 <= k < row * cols + col && is_padding_index(k, cols as int, real_rows as int, real_cols as int)
                    ==> #[trigger] flat@[k] == 0
        },
        res is Err ==> res->Err_0 is NonZeroMatrixEntry,
{
    let ghost img = ints_seq(flat@);
    let len = flat.len();
    let mut i: usize = 0;
    while i < len
        invariant
            i <= len,
            len == flat@.len() == rows * cols,
            img == ints_seq(flat@),
            forall|k: int|
                0 <= k < i && is_padding_index(k, cols as int, real_rows as int, real_cols as int) ==> #[trigger] flat@[k]
                    == 0,
        decreases len - i,
    {
        proof {
            lemma_grid_index(i as int, rows as int, cols as int);
        }
        let row = i / cols;
        let col = i % cols;
        if !(row < real_rows && col < real_cols) && flat[i] != 0 {
            assert(img[i as int] != 0);
            return Err(PaddingError::NonZeroMatrixEntry { row, col, value: flat[i] });
        }
        i = i + 1;
    }
    proof {
        assert forall|k: int|
            0 <= k < rows * cols && is_padding_index(k, cols as int, real_rows as int, real_cols as int) implies #[trigger] img[k]
            == 0 by {
            assert(flat@[k] == 0);
        }
    }
    Ok(())
}

/// Checks that every entry of a flat row-major `IH x IW` image outside the real image rectangle
/// is zero; on failure names the first such nonzero coordinate. `label` names the checked
/// image for the caller's diagnostics and is not part of the error. A failed check is returned as `Err` instead of aborting the program; the `Ok` case is exactly
/// the input on which the check passes.
pub fn assert_flat_image_padding_zero<const IH: usize, const IW: usize>(
    flat: &[i64],
    shape: &Conv2dRealShape,
    label: &str,
) -> (res: Result<(), PaddingError>)
    requires
        flat@.len() == IH * IW,
    ensures
        res is Ok <==> grid_padding_zero(ints_seq(flat@), IH * IW, IW as int, shape.ih_real as int, shape.iw_real as int),
        res matches Err(PaddingError::NonZeroMatrixEntry { row, col, value }) ==> {
            &&& row < IH && col < IW
            &&& !(row < shape.ih_real && col < shape.iw_real)
            &&& value == flat@[row * IW + col]
            &&& value != 0
            &&& forall|k: int|
                0 <= k < row * IW + col && is_padding_index(k, IW as int, shape.ih_real as int, shape.iw_real as int)
                    ==> #[trigger] flat@[k] == 0
        },
        res is Err ==> res->Err_0 is NonZeroMatrixEntry,
{
    check_grid_padding_zero(flat, IH, IW, shape.ih_real, shape.iw_real)
}

/// Checks that every entry of a flat row-major `OH x OW` output outside the real output
/// rectangle is zero; on failure names the first such nonzero coordinate. `label` names the
/// checked output for the caller's diagnostics and is not part of the error. A failed check is returned as `Err` instead of aborting the program; the `Ok` case is exactly
/// the input on which the check passes.
pub fn assert_flat_output_padding_zero<const OH: usize, const OW: usize>(
    flat: &[i64],
    shape: &Conv2dRealShape,
    label: &str,
) -> (res: Result<(), PaddingError>)
    requires
        flat@.len() == OH * OW,
    ensures
        res is Ok <==> grid_padding_zero(ints_seq(flat@), OH * OW, OW as int, shape.oh_real as int, shape.ow_real as int),
        res matches Err(PaddingError::NonZeroMatrixEntry { row, col, value }) ==> {
            &&& row < OH && col < OW
            &&& !(row < shape.oh_real && col < shape.ow_real)
            &&& value == flat@[row * OW + col]
            &&& value != 0
            &&& forall|k: int|
                0 <= k < row * OW + col && is_padding_index(k, OW as int, shape.oh_real as int, shape.ow_real as int)
                    ==> #[trigger] flat@[k] == 0
        },
        res is Err ==> res->Err_0 is NonZeroMatrixEntry,
{
    check_grid_padding_zero(flat, OH, OW, shape.oh_real, shape.ow_real)
}

/// Checks that every kernel entry outside the real kernel rectangle is zero; on failure names
/// the first such nonzero entry in row-major order. A failed check is returned as `Err` instead of aborting the program; the `Ok` case is exactly
/// the input on which the check passes.
pub fn assert_kernel_padding_zero<const KH: usize, const KW: usize>(
    kernel: &[[i64; KW]; KH],
    shape: &Conv2dRealShape,
) -> (res: Result<(), PaddingError>)
    ensures
        res is Ok <==> kernel_padding_zero(*kernel, *shape),
        res matches Err(PaddingError::NonZeroMatrixEntry { row, col, value }) ==> {
            &&& row < KH && col < KW
            &&& !(row < shape.kh_real && col < shape.kw_real)
            &&& value == kernel[row as int][col as int]
            &&& value != 0
            &&& forall|r: int, c: int|
                0 <= r < KH && 0 <= c < KW && !(r < shape.kh_real && c < shape.kw_real) && (r < row
                    || (r == row && c < col)) ==> #[trigger] kernel[r][c] == 0
        },
        res is Err ==> res->Err_0 is NonZeroMatrixEntry,
{
    let mut r: usize = 0;
    while r < KH
        invariant
            r <= KH,
            forall|i: int, c: int|
                0 <= i < r && 0 <= c < KW && !(i < shape.kh_real && c < shape.kw_real) ==> #[trigger] kernel[i][c]
                    == 0,
        decreases KH - r,
    {
        let mut c: usize = 0;
        while c < KW
            invariant
                r < KH,
                c <= KW,
                forall|i: int, k: int|
                    0 <= i < r && 0 <= k < KW && !(i < shape.kh_real && k < shape.kw_real) ==> #[trigger] kernel[i][k]
                        == 0,
                forall|k: int|
                    0 <= k < c && !(r < shape.kh_real && k < shape.kw_real) ==> #[trigger] kernel[r as int][k] == 0,
            decreases KW - c,
        {
            if !is_real_kernel_coord(r, c, shape) && kernel[r][c] != 0 {
                return Err(PaddingError::NonZeroMatrixEntry { row: r, col: c, value: kernel[r][c] });
            }
            c = c + 1;
        }
        r = r + 1;
    }
    Ok(())
}

} // verus!

verus! {

/// Raw timestep projection `time_w . e`.
pub open spec fn conv_time_raw<const TE: usize, const KH: usize, const KW: usize>(
    step: FixedDenoiseConvStepParams<TE, KH, KW>,
    e: Seq<int>,
) -> int {
    dot_from(0, ints(step.time_w), e, TE as int)
}

/// Timestep bias `floor(time_w . e / S) + time_b`.
pub open spec fn conv_time_bias<const TE: usize, const KH: usize, const KW: usize>(
    step: FixedDenoiseConvStepParams<TE, KH, KW>,
    config: FixedPointConfig,
    e: Seq<int>,
) -> int {
    conv_time_raw(step, e) / (config.scale as int) + step.time_b
}

/// The bias added after rescaling the convolution: `conv_bias + time_bias`.
pub open spec fn conv_effective_bias<const TE: usize, const KH: usize, const KW: usize>(
    step: FixedDenoiseConvStepParams<TE, KH, KW>,
    config: FixedPointConfig,
    e: Seq<int>,
) -> int {
    step.conv_bias + conv_time_bias(step, config, e)
}

/// Convolution output (before the activation) at flat output index `i`, the output having the
/// image's `IH x IW` shape.
pub open spec fn conv_pre<const IH: usize, const IW: usize, const TE: usize, const KH: usize, const KW: usize>(
    step: FixedDenoiseConvStepParams<TE, KH, KW>,
    config: FixedPointConfig,
    padding: Conv2dPadding,
    x: Seq<int>,
    e: Seq<int>,
    i: int,
) -> int {
    conv_output::<IH, IW, KH, KW>(
        x,
        step.kernel,
        conv_effective_bias(step, config, e),
        padding,
        config.scale as int,
        i / (IW as int),
        i % (IW as int),
    )
}

/// Predicted noise: the clipped ReLU of the convolution, flattened row-major.
pub open spec fn conv_epsilon<const IH: usize, const IW: usize, const TE: usize, const KH: usize, const KW: usize>(
    step: FixedDenoiseConvStepParams<TE, KH, KW>,
    config: FixedPointConfig,
    padding: Conv2dPadding,
    x: Seq<int>,
    e: Seq<int>,
) -> Seq<int> {
    Seq::new(
        (IH * IW) as nat,
        |i: int| clipped_relu_spec(conv_pre::<IH, IW, TE, KH, KW>(step, config, padding, x, e, i), config.clip_max as int),
    )
}

/// Next state: the denoise update of `x` by the predicted noise in the given mode.
pub open spec fn conv_next<const IH: usize, const IW: usize, const TE: usize, const KH: usize, const KW: usize>(
    step: FixedDenoiseConvStepParams<TE, KH, KW>,
    config: FixedPointConfig,
    padding: Conv2dPadding,
    mode: DenoiseUpdateMode,
    x: Seq<int>,
    e: Seq<int>,
) -> Seq<int> {
    let eps = conv_epsilon::<IH, IW, TE, KH, KW>(step, config, padding, x, e);
    Seq::new(
        (IH * IW) as nat,
        |j: int| denoise_update_spec(mode, x[j], eps[j], step.alpha as int, step.beta as int, config.scale as int),
    )
}

/// At flat output index `i` the convolution's rescale quotient is in the quotient range, its
/// output is in the lookup table's domain and the activation is in the value range.
pub open spec fn conv_pixel_ok<const IH: usize, const IW: usize, const TE: usize, const KH: usize, const KW: usize>(
    step: FixedDenoiseConvStepParams<TE, KH, KW>,
    config: FixedPointConfig,
    padding: Conv2dPadding,
    x: Seq<int>,
    e: Seq<int>,
    i: int,
) -> bool {
    let raw = conv_raw::<IH, IW, KH, KW>(x, step.kernel, padding, i / (IW as int), i % (IW as int));
    let pre = conv_pre::<IH, IW, TE, KH, KW>(step, config, padding, x, e, i);
    &&& config.in_quotient_range(raw / (config.scale as int))
    &&& config.relu_min <= pre <= config.relu_max
    &&& config.in_value_range(clipped_relu_spec(pre, config.clip_max as int))
}

/// The timestep projection of one iteration is admitted: embedding and weights vanish past
/// `te_real`, the dot product does not overflow, its quotient is in the quotient range and the
/// timestep bias is in the value range.
pub open spec fn conv_time_ok<const TE: usize, const KH: usize, const KW: usize>(
    step: FixedDenoiseConvStepParams<TE, KH, KW>,
    config: FixedPointConfig,
    te_real: int,
    e: Seq<int>,
) -> bool {
    let raw = conv_time_raw(step, e);
    &&& forall|j: int| te_real <= j < TE ==> #[trigger] e[j] == 0 && step.time_w[j] == 0
    &&& dot_fits(0, ints(step.time_w), e, TE as int)
    &&& config.in_quotient_range(raw / (config.scale as int))
    &&& config.in_value_range(conv_time_bias(step, config, e))
}

/// One iteration from state `x` with embedding row `e` is admitted: the kernel, the state, the
/// predicted noise and the next state hold zero on their padding; the state is in the value
/// range; the timestep projection is admitted; the convolution does not overflow and every
/// output is admitted; the update does not overflow, its quotients are in the quotient range
/// and the next state is in the value range.
pub open spec fn conv_step_ok<const IH: usize, const IW: usize, const TE: usize, const KH: usize, const KW: usize>(
    step: FixedDenoiseConvStepParams<TE, KH, KW>,
    pp: FixedDenoiseConvPublicParams<TE, KH, KW>,
    x: Seq<int>,
    e: Seq<int>,
) -> bool {
    let config = pp.config;
    let shape = pp.real_shape;
    let s = config.scale as int;
    let n = IH * IW;
    let bias = conv_effective_bias(step, config, e);
    let eps = conv_epsilon::<IH, IW, TE, KH, KW>(step, config, pp.padding, x, e);
    let next = conv_next::<IH, IW, TE, KH, KW>(step, config, pp.padding, pp.update_mode, x, e);
    &&& kernel_padding_zero(step.kernel, shape)
    &&& grid_padding_zero(x, n, IW as int, shape.ih_real as int, shape.iw_real as int)
    &&& forall|j: int| 0 <= j < n ==> config.in_value_range(#[trigger] x[j])
    &&& conv_time_ok(step, config, pp.te_real as int, e)
    &&& fits_i64(bias)
    &&& conv_fits::<IH, IW, KH, KW, IH, IW>(x, step.kernel, bias, pp.padding, s)
    &&& forall|i: int| 0 <= i < n ==> #[trigger] conv_pixel_ok::<IH, IW, TE, KH, KW>(step, config, pp.padding, x, e, i)
    &&& grid_padding_zero(eps, n, IW as int, shape.oh_real as int, shape.ow_real as int)
    &&& denoise_update_fits(pp.update_mode, x, eps, step.alpha as int, step.beta as int, s)
    &&& forall|j: int|
        0 <= j < n ==> update_quotients_ok(pp.update_mode, config, #[trigger] x[j], eps[j], step.alpha as int, step.beta as int)
            && config.in_value_range(next[j])
    &&& grid_padding_zero(next, n, IW as int, shape.ih_real as int, shape.iw_real as int)
}

/// Integer witness of one convolutional denoise iteration.
#[derive(Clone, Copy, Debug)]
pub struct FixedDenoiseConvIteration<
    const N: usize,
    const IH: usize,
    const IW: usize,
    const TE: usize,
    const KH: usize,
    const KW: usize,
    const OH: usize,
    const OW: usize,
> {
    pub t_int: i64,
    pub time_emb_int: [i64; TE],
    pub x_i_int: [i64; N],
    pub time_raw_int: i64,
    pub time_quotient_int: i64,
    pub time_remainder_int: i64,
    pub time_bias_int: i64,
    pub conv_witness: Conv2dFixedPointWitness<OH, OW>,
    pub epsilon_int: [i64; N],
    pub alpha_x_int: [i64; N],
    pub alpha_remainder_int: [i64; N],
    pub beta_epsilon_int: [i64; N],
    pub beta_remainder_int: [i64; N],
    pub update_witness: DenoiseUpdateWitness<N>,
    pub x_i_plus_1_int: [i64; N],
}

/// The `DoubleFloor` quotients and remainders of the update witness, copied out; all zero in
/// `FusedFloor` mode.
pub open spec fn conv_double_floor_parts_match<
    const N: usize,
    const IH: usize,
    const IW: usize,
    const TE: usize,
    const KH: usize,
    const KW: usize,
    const OH: usize,
    const OW: usize,
>(it: FixedDenoiseConvIteration<N, IH, IW, TE, KH, KW, OH, OW>) -> bool {
    match it.update_witness {
        DenoiseUpdateWitness::DoubleFloor { alpha_q, alpha_r, beta_q, beta_r, .. } => {
            &&& it.alpha_x_int == alpha_q
            &&& it.alpha_remainder_int == alpha_r
            &&& it.beta_epsilon_int == beta_q
            &&& it.beta_remainder_int == beta_r
        },
        DenoiseUpdateWitness::FusedFloor { .. } => {
            &&& forall|j: int| 0 <= j < N ==> #[trigger] it.alpha_x_int[j] == 0
            &&& forall|j: int| 0 <= j < N ==> #[trigger] it.alpha_remainder_int[j] == 0
            &&& forall|j: int| 0 <= j < N ==> #[trigger] it.beta_epsilon_int[j] == 0
            &&& forall|j: int| 0 <= j < N ==> #[trigger] it.beta_remainder_int[j] == 0
        },
    }
}

/// `it` is the witness of iteration `t` from state `x` with embedding row `e`.
pub open spec fn conv_iteration_matches<
    const N: usize,
    const IH: usize,
    const IW: usize,
    const TE: usize,
    const KH: usize,
    const KW: usize,
    const OH: usize,
    const OW: usize,
>(
    it: FixedDenoiseConvIteration<N, IH, IW, TE, KH, KW, OH, OW>,
    step: FixedDenoiseConvStepParams<TE, KH, KW>,
    pp: FixedDenoiseConvPublicParams<TE, KH, KW>,
    x: Seq<int>,
    e: Seq<int>,
    t: i64,
) -> bool {
    let config = pp.config;
    let s = config.scale as int;
    let raw = conv_time_raw(step, e);
    let eps = conv_epsilon::<IH, IW, TE, KH, KW>(step, config, pp.padding, x, e);
    &&& it.t_int == t
    &&& ints(it.time_emb_int) == e
    &&& ints(it.x_i_int) == x
    &&& it.time_raw_int == raw
    &&& it.time_quotient_int == raw / s
    &&& it.time_remainder_int == raw % s
    &&& it.time_bias_int == conv_time_bias(step, config, e)
    &&& conv_witness_matches::<IH, IW, KH, KW, OH, OW>(
        it.conv_witness,
        x,
        step.kernel,
        conv_effective_bias(step, config, e),
        pp.padding,
        s,
    )
    &&& ints(it.epsilon_int) == eps
    &&& denoise_update_matches(it.update_witness, pp.update_mode, x, eps, step.alpha as int, step.beta as int, s)
    &&& conv_double_floor_parts_match(it)
    &&& ints(it.x_i_plus_1_int) == conv_next::<IH, IW, TE, KH, KW>(step, config, pp.padding, pp.update_mode, x, e)
}

/// The timestep projection `(raw, floor(raw / S), raw mod S, bias)`; `Err` exactly when it is
/// not admitted.
fn conv_time_bias_checked<const TE: usize, const KH: usize, const KW: usize>(
    step: &FixedDenoiseConvStepParams<TE, KH, KW>,
    config: &FixedPointConfig,
    te_real: usize,
    time_emb: &[i64; TE],
) -> (res: Result<(i64, i64, i64, i64), TraceError>)
    requires
        config.scale > 0,
    ensures
        res is Ok <==> conv_time_ok(*step, *config, te_real as int, ints(*time_emb)),
        res matches Ok((raw, q, r, bias)) ==> {
            &&& raw == conv_time_raw(*step, ints(*time_emb))
            &&& q == raw as int / (config.scale as int)
            &&& r == raw as int % (config.scale as int)
            &&& bias == conv_time_bias(*step, *config, ints(*time_emb))
        },
{
    let ghost e = ints(*time_emb);
    let mut j: usize = te_real;
    while j < TE
        invariant
            te_real <= j <= TE || (j == te_real && te_real > TE),
            e == ints(*time_emb),
            forall|k: int| te_real <= k < j ==> #[trigger] e[k] == 0,
            forall|k: int| te_real <= k < j ==> #[trigger] step.time_w[k] == 0,
        decreases TE - j,
    {
        assert(e[j as int] == time_emb[j as int]);
        if time_emb[j] != 0 || step.time_w[j] != 0 {
            assert(!(e[j as int] == 0 && step.time_w[j as int] == 0));
            return Err(TraceError::OutOfRange);
        }
        j = j + 1;
    }
    let raw = match checked_dot(0, &step.time_w, time_emb) {
        Some(v) => v,
        None => {
            return Err(TraceError::OutOfRange);
        },
    };
    let (q, r) = rescale_with_remainder(raw, config.scale);
    if q < config.quotient_min || q > config.quotient_max {
        return Err(TraceError::OutOfRange);
    }
    let bias = match q.checked_add(step.time_b) {
        Some(b) => b,
        None => {
            return Err(TraceError::OutOfRange);
        },
    };
    if bias < config.value_min || bias > config.value_max {
        return Err(TraceError::OutOfRange);
    }
    Ok((raw, q, r, bias))
}

/// The row-major `IH x IW` image of a flat state.
fn image_of_flat<const N: usize, const IH: usize, const IW: usize>(x: &[i64; N]) -> (image: [[i64; IW]; IH])
    requires
        N == IH * IW,
    ensures
        image_flat(image) == ints(*x),
{
    let mut image = [[0i64; IW]; IH];
    let mut r: usize = 0;
    while r < IH
        invariant
            r <= IH,
            N == IH * IW,
            forall|i: int, c: int| 0 <= i < r && 0 <= c < IW ==> #[trigger] image[i][c] == x[i * IW + c],
        decreases IH - r,
    {
        let mut row = [0i64; IW];
        let mut c: usize = 0;
        proof {
            assert(r * IW + IW <= IH * IW) by (nonlinear_arith)
                requires
                    r < IH,
            ;
        }
        while c < IW
            invariant
                r < IH,
                c <= IW,
                N == IH * IW,
                r * IW + IW <= N,
                forall|k: int| 0 <= k < c ==> #[trigger] row[k] == x[r * IW + k],
            decreases IW - c,
        {
            row[c] = x[r * IW + c];
            c = c + 1;
        }
        image[r] = row;
        r = r + 1;
    }
    proof {
        assert forall|i: int| 0 <= i < N implies #[trigger] image_flat(image)[i] == ints(*x)[i] by {
            lemma_grid_index(i, IH as int, IW as int);
            assert(i < IH * IW);
        }
        assert(image_flat(image) =~= ints(*x));
    }
    image
}

/// The convolution's output at flat index `i` is admitted: its quotient is in the quotient range,
/// its output in the table's domain and its activation in the value range.
pub open spec fn witness_pixel_ok<const OH: usize, const OW: usize>(
    w: Conv2dFixedPointWitness<OH, OW>,
    config: FixedPointConfig,
    i: int,
) -> bool {
    let q = w.quotient[i / (OW as int)][i % (OW as int)];
    let pre = w.output[i / (OW as int)][i % (OW as int)];
    &&& config.in_quotient_range(q as int)
    &&& config.relu_min <= pre <= config.relu_max
    &&& config.in_value_range(clipped_relu_spec(pre as int, config.clip_max as int))
}

/// The activations of the convolution's outputs, flattened row-major; `Err` exactly when some
/// output is not admitted.
fn conv_activations_checked<const N: usize, const OH: usize, const OW: usize>(
    w: &Conv2dFixedPointWitness<OH, OW>,
    config: &FixedPointConfig,
) -> (res: Result<[i64; N], TraceError>)
    requires
        N == OH * OW,
    ensures
        res is Ok <==> forall|i: int| 0 <= i < N ==> #[trigger] witness_pixel_ok(*w, *config, i),
        res matches Ok(eps) ==> forall|i: int|
            0 <= i < N ==> #[trigger] eps[i] == clipped_relu_spec(
                w.output[i / (OW as int)][i % (OW as int)] as int,
                config.clip_max as int,
            ),
{
    let table = config.clipped_relu_table();
    let mut eps = [0i64; N];
    let mut i: usize = 0;
    while i < N
        invariant
            i <= N,
            N == OH * OW,
            table == config.table_spec(),
            forall|k: int| 0 <= k < i ==> #[trigger] witness_pixel_ok(*w, *config, k),
            forall|k: int|
                0 <= k < i ==> #[trigger] eps[k] == clipped_relu_spec(
                    w.output[k / (OW as int)][k % (OW as int)] as int,
                    config.clip_max as int,
                ),
        decreases N - i,
    {
        proof {
            lemma_grid_index(i as int, OH as int, OW as int);
        }
        let oy = i / OW;
        let ox = i % OW;
        let q = w.quotient[oy][ox];
        let pre = w.output[oy][ox];
        if q < config.quotient_min || q > config.quotient_max {
            assert(!witness_pixel_ok(*w, *config, i as int));
            return Err(TraceError::OutOfRange);
        }
        if !table.contains(pre) {
            assert(!witness_pixel_ok(*w, *config, i as int));
            return Err(TraceError::OutOfRange);
        }
        let clipped = table.clipped_relu(pre);
        if clipped < config.value_min || clipped > config.value_max {
            assert(!witness_pixel_ok(*w, *config, i as int));
            return Err(TraceError::OutOfRange);
        }
        eps[i] = clipped;
        i = i + 1;
    }
    Ok(eps)
}

/// Every coordinate's update quotients are in the quotient range and its next value in the
/// value range; `Err` exactly when one is not.
fn update_ranges_checked<const N: usize>(
    uw: &DenoiseUpdateWitness<N>,
    config: &FixedPointConfig,
    mode: DenoiseUpdateMode,
    Ghost(x): Ghost<Seq<int>>,
    Ghost(eps): Ghost<Seq<int>>,
    alpha: i64,
    beta: i64,
) -> (res: Result<(), TraceError>)
    requires
        config.scale > 0,
        denoise_update_matches(*uw, mode, x, eps, alpha as int, beta as int, config.scale as int),
    ensures
        res is Ok <==> forall|j: int|
            0 <= j < N ==> update_quotients_ok(mode, *config, #[trigger] x[j], eps[j], alpha as int, beta as int)
                && config.in_value_range(
                denoise_update_spec(mode, x[j], eps[j], alpha as int, beta as int, config.scale as int),
            ),
{
    let ghost s = config.scale as int;
    let x_next = *uw.x_next();
    let mut j: usize = 0;
    while j < N
        invariant
            j <= N,
            s == config.scale as int,
            s > 0,
            x_next == uw.x_next_spec(),
            denoise_update_matches(*uw, mode, x, eps, alpha as int, beta as int, s),
            forall|k: int|
                0 <= k < j ==> update_quotients_ok(mode, *config, #[trigger] x[k], eps[k], alpha as int, beta as int)
                    && config.in_value_range(denoise_update_spec(mode, x[k], eps[k], alpha as int, beta as int, s)),
        decreases N - j,
    {
        match uw {
            DenoiseUpdateWitness::DoubleFloor { alpha_q, beta_q, .. } => {
                assert(alpha_q[j as int] == (alpha * x[j as int]) / s);
                assert(beta_q[j as int] == (beta * eps[j as int]) / s);
                if alpha_q[j] < config.quotient_min || alpha_q[j] > config.quotient_max {
                    return Err(TraceError::OutOfRange);
                }
                if beta_q[j] < config.quotient_min || beta_q[j] > config.quotient_max {
                    return Err(TraceError::OutOfRange);
                }
            },
            DenoiseUpdateWitness::FusedFloor { fused_q, .. } => {
                assert(fused_q[j as int] == (alpha * x[j as int] + beta * eps[j as int]) / s);
                if fused_q[j] < config.quotient_min || fused_q[j] > config.quotient_max {
                    return Err(TraceError::OutOfRange);
                }
            },
        }
        assert(x_next[j as int] == denoise_update_spec(mode, x[j as int], eps[j as int], alpha as int, beta as int, s));
        if x_next[j] < config.value_min || x_next[j] > config.value_max {
            return Err(TraceError::OutOfRange);
        }
        j = j + 1;
    }
    Ok(())
}

} // verus!

verus! {

/// The convolution's witness at flat output index `i < IH * IW` admits the output exactly when
/// the iteration's specification does, and its activation is the predicted noise there.
proof fn lemma_pixel_of_witness<
    const IH: usize,
    const IW: usize,
    const TE: usize,
    const KH: usize,
    const KW: usize,
    const OH: usize,
    const OW: usize,
>(
    w: Conv2dFixedPointWitness<OH, OW>,
    step: FixedDenoiseConvStepParams<TE, KH, KW>,
    config: FixedPointConfig,
    padding: Conv2dPadding,
    x: Seq<int>,
    e: Seq<int>,
    i: int,
)
    requires
        OH == IH,
        OW == IW,
        0 <= i < IH * IW,
        config.scale > 0,
        conv_witness_matches::<IH, IW, KH, KW, OH, OW>(
            w,
            x,
            step.kernel,
            conv_effective_bias(step, config, e),
            padding,
            config.scale as int,
        ),
    ensures
        witness_pixel_ok(w, config, i) == conv_pixel_ok::<IH, IW, TE, KH, KW>(step, config, padding, x, e, i),
        w.output[i / (OW as int)][i % (OW as int)] == conv_pre::<IH, IW, TE, KH, KW>(step, config, padding, x, e, i),
{
    lemma_grid_index(i, IH as int, IW as int);
    let oy = i / (IW as int);
    let ox = i % (IW as int);
    assert(w.raw[oy][ox] == conv_raw::<IH, IW, KH, KW>(x, step.kernel, padding, oy, ox));
}

/// One convolutional denoise iteration `t` from state `x` with its witness; `Err` exactly when
/// it is not admitted.
pub fn fixed_point_denoise_conv_iteration<
    const N: usize,
    const IH: usize,
    const IW: usize,
    const TE: usize,
    const KH: usize,
    const KW: usize,
    const OH: usize,
    const OW: usize,
>(
    public_params: &FixedDenoiseConvPublicParams<TE, KH, KW>,
    t: usize,
    x: &[i64; N],
) -> (res: Result<FixedDenoiseConvIteration<N, IH, IW, TE, KH, KW, OH, OW>, TraceError>)
    requires
        N == IH * IW,
        OH == IH,
        OW == IW,
        KH * KW <= usize::MAX,
        public_params.config.scale > 0,
        t < public_params.params_seq@.len(),
        t < public_params.time_table@.len(),
    ensures
        res is Ok <==> conv_step_ok::<IH, IW, TE, KH, KW>(
            public_params.params_seq@[t as int],
            *public_params,
            ints(*x),
            ints(public_params.time_table@[t as int]),
        ),
        res matches Ok(it) ==> conv_iteration_matches(
            it,
            public_params.params_seq@[t as int],
            *public_params,
            ints(*x),
            ints(public_params.time_table@[t as int]),
            t as i64,
        ),
{
    let step = public_params.params_seq[t];
    let time_emb = public_params.time_table[t];
    let config = public_params.config;
    let shape = public_params.real_shape;
    let padding = public_params.padding;
    let mode = public_params.update_mode;
    let ghost xs = ints(*x);
    let ghost es = ints(time_emb);
    let ghost s = config.scale as int;
    let ghost pp = *public_params;
    if assert_kernel_padding_zero(&step.kernel, &shape).is_err() {
        return Err(TraceError::OutOfRange);
    }
    assert(ints_seq(x@) =~= xs);
    if assert_flat_image_padding_zero::<IH, IW>(x.as_slice(), &shape, "x_i").is_err() {
        return Err(TraceError::OutOfRange);
    }
    let mut j: usize = 0;
    while j < N
        invariant
            j <= N,
            N == IH * IW,
            xs == ints(*x),
            config == public_params.config,
            forall|k: int| 0 <= k < j ==> config.in_value_range(#[trigger] xs[k]),
        decreases N - j,
    {
        if x[j] < config.value_min || x[j] > config.value_max {
            assert(!config.in_value_range(xs[j as int]));
            return Err(TraceError::OutOfRange);
        }
        j = j + 1;
    }
    let (time_raw, time_q, time_r, time_bias) = match conv_time_bias_checked(
        &step,
        &config,
        public_params.te_real,
        &time_emb,
    ) {
        Ok(v) => v,
        Err(e) => {
            return Err(e);
        },
    };
    let bias = match step.conv_bias.checked_add(time_bias) {
        Some(b) => b,
        None => {
            return Err(TraceError::OutOfRange);
        },
    };
    let image = image_of_flat::<N, IH, IW>(x);
    let w = match try_apply_conv2d_fixed_point_with_witness::<IH, IW, KH, KW, OH, OW>(
        &image,
        &step.kernel,
        bias,
        &padding,
        config.scale,
    ) {
        Some(w) => w,
        None => {
            return Err(TraceError::OutOfRange);
        },
    };
    let ghost eps_s = conv_epsilon::<IH, IW, TE, KH, KW>(step, config, padding, xs, es);
    let epsilon = match conv_activations_checked::<N, OH, OW>(&w, &config) {
        Ok(eps) => eps,
        Err(e) => {
            proof {
                let i = choose|i: int| 0 <= i < N && !#[trigger] witness_pixel_ok(w, config, i);
                lemma_pixel_of_witness::<IH, IW, TE, KH, KW, OH, OW>(w, step, config, padding, xs, es, i);
                assert(!conv_pixel_ok::<IH, IW, TE, KH, KW>(step, config, padding, xs, es, i));
            }
            return Err(e);
        },
    };
    proof {
        assert forall|i: int| 0 <= i < IH * IW implies #[trigger] conv_pixel_ok::<IH, IW, TE, KH, KW>(
            step,
            config,
            padding,
            xs,
            es,
            i,
        ) by {
            lemma_pixel_of_witness::<IH, IW, TE, KH, KW, OH, OW>(w, step, config, padding, xs, es, i);
            assert(witness_pixel_ok(w, config, i));
        }
        assert forall|i: int| 0 <= i < N implies #[trigger] ints(epsilon)[i] == eps_s[i] by {
            lemma_pixel_of_witness::<IH, IW, TE, KH, KW, OH, OW>(w, step, config, padding, xs, es, i);
        }
        assert(ints(epsilon) =~= eps_s);
        assert(ints_seq(epsilon@) =~= eps_s);
    }
    if assert_flat_output_padding_zero::<OH, OW>(epsilon.as_slice(), &shape, "epsilon").is_err() {
        return Err(TraceError::OutOfRange);
    }
    let uw = match try_compute_denoise_update_witness(x, &epsilon, step.alpha, step.beta, config.scale, mode) {
        Some(uw) => uw,
        None => {
            return Err(TraceError::OutOfRange);
        },
    };
    match update_ranges_checked(&uw, &config, mode, Ghost(xs), Ghost(eps_s), step.alpha, step.beta) {
        Ok(()) => {},
        Err(e) => {
            return Err(e);
        },
    }
    let x_next = *uw.x_next();
    let ghost next_s = conv_next::<IH, IW, TE, KH, KW>(step, config, padding, mode, xs, es);
    proof {
        assert forall|k: int| 0 <= k < N implies #[trigger] ints(x_next)[k] == next_s[k] by {
            assert(x_next[k] == denoise_update_spec(mode, xs[k], eps_s[k], step.alpha as int, step.beta as int, s));
        }
        assert(ints(x_next) =~= next_s);
        assert(ints_seq(x_next@) =~= next_s);
    }
    if assert_flat_image_padding_zero::<IH, IW>(x_next.as_slice(), &shape, "x_next").is_err() {
        return Err(TraceError::OutOfRange);
    }
    let (alpha_x, alpha_rem, beta_eps, beta_rem) = match &uw {
        DenoiseUpdateWitness::DoubleFloor { alpha_q, alpha_r, beta_q, beta_r, .. } => {
            (*alpha_q, *alpha_r, *beta_q, *beta_r)
        },
        DenoiseUpdateWitness::FusedFloor { .. } => ([0i64; N], [0i64; N], [0i64; N], [0i64; N]),
    };
    let it = FixedDenoiseConvIteration {
        t_int: t as i64,
        time_emb_int: time_emb,
        x_i_int: *x,
        time_raw_int: time_raw,
        time_quotient_int: time_q,
        time_remainder_int: time_r,
        time_bias_int: time_bias,
        conv_witness: w,
        epsilon_int: epsilon,
        alpha_x_int: alpha_x,
        alpha_remainder_int: alpha_rem,
        beta_epsilon_int: beta_eps,
        beta_remainder_int: beta_rem,
        update_witness: uw,
        x_i_plus_1_int: x_next,
    };
    Ok(it)
}

} // verus!

verus! {

/// State `x_t` after the first `t` iterations from `x0`, embedding row `t` feeding iteration `t`.
pub open spec fn conv_state<const IH: usize, const IW: usize, const TE: usize, const KH: usize, const KW: usize>(
    pp: FixedDenoiseConvPublicParams<TE, KH, KW>,
    x0: Seq<int>,
    t: int,
) -> Seq<int>
    decreases t,
{
    if t <= 0 {
        x0
    } else {
        conv_next::<IH, IW, TE, KH, KW>(
            pp.params_seq@[t - 1],
            pp.config,
            pp.padding,
            pp.update_mode,
            conv_state::<IH, IW, TE, KH, KW>(pp, x0, t - 1),
            ints(pp.time_table@[t - 1]),
        )
    }
}

/// Every iteration of the run from `x0` is admitted.
pub open spec fn conv_trace_ok<const IH: usize, const IW: usize, const TE: usize, const KH: usize, const KW: usize>(
    pp: FixedDenoiseConvPublicParams<TE, KH, KW>,
    x0: Seq<int>,
) -> bool {
    forall|t: int|
        0 <= t < pp.params_seq@.len() ==> conv_step_ok::<IH, IW, TE, KH, KW>(
            #[trigger] pp.params_seq@[t],
            pp,
            conv_state::<IH, IW, TE, KH, KW>(pp, x0, t),
            ints(pp.time_table@[t]),
        )
}

/// `seq` holds, in order, the witness of every iteration of the run from `x0`.
pub open spec fn conv_trace_matches<
    const N: usize,
    const IH: usize,
    const IW: usize,
    const TE: usize,
    const KH: usize,
    const KW: usize,
    const OH: usize,
    const OW: usize,
>(
    pp: FixedDenoiseConvPublicParams<TE, KH, KW>,
    x0: Seq<int>,
    seq: Seq<FixedDenoiseConvIteration<N, IH, IW, TE, KH, KW, OH, OW>>,
) -> bool {
    &&& seq.len() == pp.params_seq@.len()
    &&& forall|t: int|
        0 <= t < seq.len() ==> conv_iteration_matches(
            #[trigger] seq[t],
            pp.params_seq@[t],
            pp,
            conv_state::<IH, IW, TE, KH, KW>(pp, x0, t),
            ints(pp.time_table@[t]),
            t as i64,
        )
}

/// Concatenation of the flattened parameter blocks, in order.
pub open spec fn conv_params_flat<const TE: usize, const KH: usize, const KW: usize>(
    params: Seq<FixedDenoiseConvStepParams<TE, KH, KW>>,
) -> Seq<i64>
    decreases params.len(),
{
    if params.len() == 0 {
        Seq::empty()
    } else {
        conv_params_flat(params.drop_last()) + params.last().flatten_spec()
    }
}

/// Appends every flattened parameter block of `params` to `out`.
fn push_conv_params<const TE: usize, const KH: usize, const KW: usize>(
    out: &mut Vec<i64>,
    params: &Vec<FixedDenoiseConvStepParams<TE, KH, KW>>,
)
    ensures
        final(out)@ == old(out)@ + conv_params_flat(params@),
{
    let ghost start = out@;
    let mut i: usize = 0;
    while i < params.len()
        invariant
            i <= params@.len(),
            out@ == start + conv_params_flat(params@.take(i as int)),
        decreases params@.len() - i,
    {
        let mut block = params[i].flatten_i64();
        proof {
            assert(params@.take(i + 1).drop_last() =~= params@.take(i as int));
        }
        out.append(&mut block);
        proof {
            assert(out@ =~= start + conv_params_flat(params@.take(i + 1)));
        }
        i = i + 1;
    }
    assert(params@.take(params@.len() as int) =~= params@);
}

/// The public output slot of `z0`: the expected output when there is one, nothing otherwise.
pub open spec fn output_slot<const N: usize>(expected_output: Option<[i64; N]>) -> Seq<i64> {
    match expected_output {
        Some(y) => y@,
        None => Seq::empty(),
    }
}

/// `z0 = [x0 | expected output, if any | t0 = 0 | params_0 | ... | E_0 | ...]`.
fn build_z0<const N: usize, const TE: usize, const KH: usize, const KW: usize>(
    public_params: &FixedDenoiseConvPublicParams<TE, KH, KW>,
    x0: &[i64; N],
    expected_output: Option<[i64; N]>,
) -> (z0: Vec<i64>)
    ensures
        z0@ == (x0@ + output_slot(expected_output)).push(0) + conv_params_flat(public_params.params_seq@)
            + table_flat(public_params.time_table@),
{
    let mut z0: Vec<i64> = Vec::new();
    push_vector(&mut z0, x0);
    match expected_output {
        Some(y) => {
            push_vector(&mut z0, &y);
        },
        None => {},
    }
    z0.push(0);
    push_conv_params(&mut z0, &public_params.params_seq);
    push_table(&mut z0, &public_params.time_table);
    z0
}

/// The integer witness trace of `e_t = table[t]`, `b_t = conv_bias_t + floor(time_w_t . e_t / S)
/// + time_b_t`, `eps_t = clipped_relu(conv_t(x_t) + b_t)`, `x_{t+1} = update(x_t, eps_t)`; `Err`
/// exactly when some iteration is not admitted.
fn simulate_fixed_point_denoise_conv_trace<
    const N: usize,
    const IH: usize,
    const IW: usize,
    const TE: usize,
    const KH: usize,
    const KW: usize,
    const OH: usize,
    const OW: usize,
>(public_params: &FixedDenoiseConvPublicParams<TE, KH, KW>, x0: [i64; N]) -> (res: Result<
    Vec<FixedDenoiseConvIteration<N, IH, IW, TE, KH, KW, OH, OW>>,
    TraceError,
>)
    requires
        N == IH * IW,
        OH == IH,
        OW == IW,
        KH * KW <= usize::MAX,
        public_params.real_shape.fits::<IH, IW, KH, KW, OH, OW>(),
        public_params.config.scale > 0,
        public_params.params_seq@.len() <= public_params.time_table@.len(),
    ensures
        res is Ok <==> conv_trace_ok::<IH, IW, TE, KH, KW>(*public_params, ints(x0)),
        res matches Ok(seq) ==> conv_trace_matches(*public_params, ints(x0), seq@),
{
    let ghost pp = *public_params;
    let mut x_i = x0;
    let mut seq: Vec<FixedDenoiseConvIteration<N, IH, IW, TE, KH, KW, OH, OW>> = Vec::new();
    let mut t: usize = 0;
    while t < public_params.params_seq.len()
        invariant
            N == IH * IW,
            OH == IH,
            OW == IW,
            KH * KW <= usize::MAX,
            pp == *public_params,
            pp.config.scale > 0,
            t <= pp.params_seq@.len() <= pp.time_table@.len(),
            seq@.len() == t,
            ints(x_i) == conv_state::<IH, IW, TE, KH, KW>(pp, ints(x0), t as int),
            forall|k: int|
                0 <= k < t ==> conv_step_ok::<IH, IW, TE, KH, KW>(
                    #[trigger] pp.params_seq@[k],
                    pp,
                    conv_state::<IH, IW, TE, KH, KW>(pp, ints(x0), k),
                    ints(pp.time_table@[k]),
                ),
            forall|k: int|
                0 <= k < t ==> conv_iteration_matches(
                    #[trigger] seq@[k],
                    pp.params_seq@[k],
                    pp,
                    conv_state::<IH, IW, TE, KH, KW>(pp, ints(x0), k),
                    ints(pp.time_table@[k]),
                    k as i64,
                ),
        decreases pp.params_seq@.len() - t,
    {
        match fixed_point_denoise_conv_iteration::<N, IH, IW, TE, KH, KW, OH, OW>(public_params, t, &x_i) {
            Err(e) => {
                return Err(e);
            },
            Ok(it) => {
                x_i = it.x_i_plus_1_int;
                seq.push(it);
            },
        }
        t = t + 1;
    }
    Ok(seq)
}

/// Generates `z0 = [x0 | t0 = 0 | params_0 | ... | params_{T-1} | E_0 | ... | E_{T-1}]` and the
/// integer witness trace of the convolutional denoise run; `Err` exactly when some iteration is
/// not admitted.
pub fn generate_fixed_point_denoise_conv_trace<
    const N: usize,
    const IH: usize,
    const IW: usize,
    const TE: usize,
    const KH: usize,
    const KW: usize,
    const OH: usize,
    const OW: usize,
>(public_params: &FixedDenoiseConvPublicParams<TE, KH, KW>, x0: [i64; N]) -> (res: Result<
    (Vec<i64>, Vec<FixedDenoiseConvIteration<N, IH, IW, TE, KH, KW, OH, OW>>),
    TraceError,
>)
    requires
        N == IH * IW,
        OH == IH,
        OW == IW,
        KH * KW <= usize::MAX,
        public_params.real_shape.fits::<IH, IW, KH, KW, OH, OW>(),
        public_params.config.scale > 0,
        public_params.params_seq@.len() <= public_params.time_table@.len(),
    ensures
        res is Ok <==> conv_trace_ok::<IH, IW, TE, KH, KW>(*public_params, ints(x0)),
        res matches Ok((z0, seq)) ==> {
            &&& z0@ == x0@.push(0) + conv_params_flat(public_params.params_seq@) + table_flat(
                public_params.time_table@,
            )
            &&& conv_trace_matches(*public_params, ints(x0), seq@)
        },
{
    let seq = match simulate_fixed_point_denoise_conv_trace::<N, IH, IW, TE, KH, KW, OH, OW>(public_params, x0) {
        Ok(seq) => seq,
        Err(e) => {
            return Err(e);
        },
    };
    let z0 = build_z0(public_params, &x0, None);
    assert(x0@ + output_slot::<N>(None) =~= x0@);
    Ok((z0, seq))
}

/// Like [`generate_fixed_point_denoise_conv_trace`], with the claimed final state in `z0` after
/// `x0`; `Err` also when the claimed output is nonzero on the image padding.
pub fn generate_fixed_point_denoise_conv_trace_with_expected_output<
    const N: usize,
    const IH: usize,
    const IW: usize,
    const TE: usize,
    const KH: usize,
    const KW: usize,
    const OH: usize,
    const OW: usize,
>(public_params: &FixedDenoiseConvPublicParams<TE, KH, KW>, x0: [i64; N], expected_output: [i64; N]) -> (res:
    Result<(Vec<i64>, Vec<FixedDenoiseConvIteration<N, IH, IW, TE, KH, KW, OH, OW>>), TraceError>)
    requires
        N == IH * IW,
        OH == IH,
        OW == IW,
        KH * KW <= usize::MAX,
        public_params.real_shape.fits::<IH, IW, KH, KW, OH, OW>(),
        public_params.config.scale > 0,
        public_params.params_seq@.len() <= public_params.time_table@.len(),
    ensures
        res is Ok <==> grid_padding_zero(
            ints(expected_output),
            N as int,
            IW as int,
            public_params.real_shape.ih_real as int,
            public_params.real_shape.iw_real as int,
        ) && conv_trace_ok::<IH, IW, TE, KH, KW>(*public_params, ints(x0)),
        res matches Ok((z0, seq)) ==> {
            &&& z0@ == (x0@ + expected_output@).push(0) + conv_params_flat(public_params.params_seq@)
                + table_flat(public_params.time_table@)
            &&& conv_trace_matches(*public_params, ints(x0), seq@)
        },
{
    assert(ints_seq(expected_output@) =~= ints(expected_output));
    if assert_flat_image_padding_zero::<IH, IW>(
        expected_output.as_slice(),
        &public_params.real_shape,
        "expected_output",
    ).is_err() {
        return Err(TraceError::OutOfRange);
    }
    let seq = match simulate_fixed_point_denoise_conv_trace::<N, IH, IW, TE, KH, KW, OH, OW>(public_params, x0) {
        Ok(seq) => seq,
        Err(e) => {
            return Err(e);
        },
    };
    let z0 = build_z0(public_params, &x0, Some(expected_output));
    Ok((z0, seq))
}

/// Like [`generate_fixed_point_denoise_conv_trace`], with the computed final state `x_T` (`x0`
/// for an empty run) in `z0` after `x0`, and returned.
pub fn generate_fixed_point_denoise_conv_trace_with_computed_output<
    const N: usize,
    const IH: usize,
    const IW: usize,
    const TE: usize,
    const KH: usize,
    const KW: usize,
    const OH: usize,
    const OW: usize,
>(public_params: &FixedDenoiseConvPublicParams<TE, KH, KW>, x0: [i64; N]) -> (res: Result<
    (Vec<i64>, Vec<FixedDenoiseConvIteration<N, IH, IW, TE, KH, KW, OH, OW>>, [i64; N]),
    TraceError,
>)
    requires
        N == IH * IW,
        OH == IH,
        OW == IW,
        KH * KW <= usize::MAX,
        public_params.real_shape.fits::<IH, IW, KH, KW, OH, OW>(),
        public_params.config.scale > 0,
        public_params.params_seq@.len() <= public_params.time_table@.len(),
    ensures
        res is Ok <==> conv_trace_ok::<IH, IW, TE, KH, KW>(*public_params, ints(x0)),
        res matches Ok((z0, seq, y)) ==> {
            &&& ints(y) == conv_state::<IH, IW, TE, KH, KW>(
                *public_params,
                ints(x0),
                public_params.params_seq@.len() as int,
            )
            &&& z0@ == (x0@ + y@).push(0) + conv_params_flat(public_params.params_seq@) + table_flat(
                public_params.time_table@,
            )
            &&& conv_trace_matches(*public_params, ints(x0), seq@)
        },
{
    let seq = match simulate_fixed_point_denoise_conv_trace::<N, IH, IW, TE, KH, KW, OH, OW>(public_params, x0) {
        Ok(seq) => seq,
        Err(e) => {
            return Err(e);
        },
    };
    let n = seq.len();
    let y = if n == 0 {
        x0
    } else {
        seq[n - 1].x_i_plus_1_int
    };
    let z0 = build_z0(public_params, &x0, Some(y));
    Ok((z0, seq, y))
}

} // verus!

verus! {

/// A convolutional denoise trace chains: iteration `0` starts at `x0` and iteration `t + 1`
/// starts at the state iteration `t` ends in.
pub proof fn lemma_conv_trace_chains<
    const N: usize,
    const IH: usize,
    const IW: usize,
    const TE: usize,
    const KH: usize,
    const KW: usize,
    const OH: usize,
    const OW: usize,
>(
    pp: FixedDenoiseConvPublicParams<TE, KH, KW>,
    x0: Seq<int>,
    seq: Seq<FixedDenoiseConvIteration<N, IH, IW, TE, KH, KW, OH, OW>>,
    t: int,
)
    requires
        conv_trace_matches(pp, x0, seq),
        0 <= t,
        t + 1 < seq.len(),
    ensures
        ints(seq[0].x_i_int) == x0,
        ints(seq[t + 1].x_i_int) == ints(seq[t].x_i_plus_1_int),
{
    assert(conv_iteration_matches(
        seq[0],
        pp.params_seq@[0],
        pp,
        conv_state::<IH, IW, TE, KH, KW>(pp, x0, 0),
        ints(pp.time_table@[0]),
        0 as i64,
    ));
    assert(conv_iteration_matches(
        seq[t],
        pp.params_seq@[t],
        pp,
        conv_state::<IH, IW, TE, KH, KW>(pp, x0, t),
        ints(pp.time_table@[t]),
        t as i64,
    ));
    assert(conv_iteration_matches(
        seq[t + 1],
        pp.params_seq@[t + 1],
        pp,
        conv_state::<IH, IW, TE, KH, KW>(pp, x0, t + 1),
        ints(pp.time_table@[t + 1]),
        (t + 1) as i64,
    ));
}

} // verus!

verus! {

/// The convolutional parameter blocks have `conv_block_len` entries each, block `i` at offset
/// `i * conv_block_len`.
pub proof fn lemma_conv_params_flat_blocks<const TE: usize, const KH: usize, const KW: usize>(
    params: Seq<FixedDenoiseConvStepParams<TE, KH, KW>>,
    i: int,
)
    ensures
        conv_params_flat(params).len() == params.len() * conv_block_len_spec(TE as nat, KH as nat, KW as nat),
        0 <= i < params.len() ==> conv_params_flat(params).subrange(
            i * conv_block_len_spec(TE as nat, KH as nat, KW as nat),
            i * conv_block_len_spec(TE as nat, KH as nat, KW as nat) + conv_block_len_spec(TE as nat, KH as nat, KW as nat),
        ) == params[i].flatten_spec(),
    decreases params.len(),
{
    let b = conv_block_len_spec(TE as nat, KH as nat, KW as nat) as int;
    if params.len() > 0 {
        let init = params.drop_last();
        lemma_conv_params_flat_blocks(init, i);
        lemma_conv_flatten_len(params.last());
        assert(init.len() * b + b == params.len() * b) by (nonlinear_arith)
            requires
                init.len() + 1 == params.len(),
        ;
        if 0 <= i < params.len() {
            assert(0 <= i * b && i * b + b <= params.len() * b) by (nonlinear_arith)
                requires
                    0 <= i < params.len(),
                    0 <= b,
            ;
            if i < init.len() {
                assert(i * b + b <= init.len() * b) by (nonlinear_arith)
                    requires
                        0 <= i < init.len(),
                        0 <= b,
                ;
                assert(conv_params_flat(params).subrange(i * b, i * b + b) =~= conv_params_flat(init).subrange(
                    i * b,
                    i * b + b,
                ));
            } else {
                assert(conv_params_flat(params).subrange(i * b, i * b + b) =~= params.last().flatten_spec());
            }
        }
    }
}

/// The initial public state `[x0 | y | 0 | params... | table...]` of a convolutional trace with a
/// public output has the layout `PublicStateLayout { n: N, has_output: true, has_commitment:
/// false, .. }`: its length is the layout's state length, `x0` is at `x_range`, `y` at
/// `y_range`, `t = 0` at `t_index`, every parameter block at its `param_block_range` and every
/// table row at its `time_table_row_range`.
pub proof fn lemma_conv_z0_matches_layout<const N: usize, const TE: usize, const KH: usize, const KW: usize>(
    params: Seq<FixedDenoiseConvStepParams<TE, KH, KW>>,
    table: Seq<[i64; TE]>,
    x0: [i64; N],
    y: [i64; N],
    layout: PublicStateLayout,
    i: int,
)
    requires
        params.len() == table.len(),
        layout == (PublicStateLayout {
            n: N,
            has_output: true,
            has_commitment: false,
            total_iters: params.len() as usize,
            param_block_len: conv_block_len_spec(TE as nat, KH as nat, KW as nat) as usize,
            time_emb_dim: TE,
        }),
        params.len() <= usize::MAX,
        conv_block_len_spec(TE as nat, KH as nat, KW as nat) <= usize::MAX,
    ensures
        ({
            let z0 = (x0@ + y@).push(0) + conv_params_flat(params) + table_flat(table);
            &&& z0.len() == layout.state_len_spec()
            &&& z0.subrange(0, N as int) == x0@
            &&& z0.subrange(N as int, 2 * N) == y@
            &&& z0[layout.t_index_spec()] == 0
            &&& 0 <= i < params.len() ==> z0.subrange(
                layout.block_start_spec(i),
                layout.block_start_spec(i) + layout.param_block_len,
            ) == params[i].flatten_spec()
            &&& 0 <= i < params.len() ==> z0.subrange(
                layout.row_start_spec(i),
                layout.row_start_spec(i) + TE,
            ) == table[i]@
        }),
{
    let z0 = (x0@ + y@).push(0) + conv_params_flat(params) + table_flat(table);
    let b = conv_block_len_spec(TE as nat, KH as nat, KW as nat) as int;
    lemma_conv_params_flat_blocks(params, i);
    crate::models::denoise_time_embedding::lemma_table_flat_rows(table, i);
    let pf = conv_params_flat(params);
    let tf = table_flat(table);
    assert(z0.subrange(0, N as int) =~= x0@);
    assert(z0.subrange(N as int, 2 * N) =~= y@);
    if 0 <= i < params.len() {
        assert(0 <= i * b && i * b + b <= params.len() * b) by (nonlinear_arith)
            requires
                0 <= i < params.len(),
                0 <= b,
        ;
        assert(0 <= i * TE && i * TE + TE <= table.len() * TE) by (nonlinear_arith)
            requires
                0 <= i < table.len(),
        ;
        assert(z0.subrange(2 * N + 1 + i * b, 2 * N + 1 + i * b + b) =~= pf.subrange(i * b, i * b + b));
        assert(z0.subrange(2 * N + 1 + pf.len() + i * TE, 2 * N + 1 + pf.len() + i * TE + TE) =~= tf.subrange(
            i * TE,
            i * TE + TE,
        ));
    }
}

} // verus!

verus! {

/// The flattened block is `[kernel row-major | conv_bias | time_w | time_b | alpha | beta]`,
/// entry by entry: `kernel[r][c]` at `r*KW + c`, `conv_bias` at `KH*KW`, `time_w[j]` at
/// `KH*KW + 1 + j`, then `time_b`, `alpha` and `beta`.
pub proof fn lemma_conv_flatten_entries<const TE: usize, const KH: usize, const KW: usize>(
    p: FixedDenoiseConvStepParams<TE, KH, KW>,
    r: int,
    c: int,
)
    ensures
        p.flatten_spec().len() == KH * KW + 1 + TE + 1 + 2,
        0 <= r < KH && 0 <= c < KW ==> p.flatten_spec()[r * KW + c] == p.kernel[r][c],
        p.flatten_spec()[KH * KW] == p.conv_bias,
        0 <= r < TE ==> p.flatten_spec()[KH * KW + 1 + r] == p.time_w[r],
        p.flatten_spec()[KH * KW + 1 + TE] == p.time_b,
        p.flatten_spec()[KH * KW + 1 + TE + 1] == p.alpha,
        p.flatten_spec()[KH * KW + 1 + TE + 2] == p.beta,
{
    assert(flat_matrix(p.kernel).len() == KH * KW);
    if 0 <= r < KH && 0 <= c < KW {
        crate::matrix::lemma_flat_matrix_index(p.kernel, r, c);
    }
}

} // verus!

verus! {

/// The arithmetic of a convolutional denoise iteration: the timestep projection is
/// `time_w . e = time_q * S + time_r` with `0 <= time_r < S`, the timestep bias is
/// `time_q + time_b`; at every output pixel the convolution sum is `q * S + r` with
/// `0 <= r < S`, the pre-activation is `q + conv_bias + time_bias` (so raising `conv_bias` by `k`
/// raises every pre-activation by exactly `k`), and the predicted noise at the pixel's flat index
/// is the clipped ReLU of that pre-activation.
pub proof fn lemma_conv_iteration_arithmetic<
    const N: usize,
    const IH: usize,
    const IW: usize,
    const TE: usize,
    const KH: usize,
    const KW: usize,
    const OH: usize,
    const OW: usize,
>(
    it: FixedDenoiseConvIteration<N, IH, IW, TE, KH, KW, OH, OW>,
    step: FixedDenoiseConvStepParams<TE, KH, KW>,
    pp: FixedDenoiseConvPublicParams<TE, KH, KW>,
    x: Seq<int>,
    e: Seq<int>,
    t: i64,
    oy: int,
    ox: int,
)
    requires
        N == IH * IW,
        OH == IH,
        OW == IW,
        pp.config.scale > 0,
        conv_iteration_matches(it, step, pp, x, e, t),
    ensures
        it.time_raw_int == dot_from(0, ints(step.time_w), e, TE as int),
        it.time_quotient_int * pp.config.scale + it.time_remainder_int == it.time_raw_int,
        0 <= it.time_remainder_int < pp.config.scale,
        it.time_bias_int == it.time_quotient_int + step.time_b,
        0 <= oy < OH && 0 <= ox < OW ==> {
            &&& it.conv_witness.quotient[oy][ox] * pp.config.scale + it.conv_witness.remainder[oy][ox]
                == it.conv_witness.raw[oy][ox]
            &&& 0 <= it.conv_witness.remainder[oy][ox] < pp.config.scale
            &&& it.conv_witness.output[oy][ox] == it.conv_witness.quotient[oy][ox] + step.conv_bias
                + it.time_bias_int
            &&& it.epsilon_int[oy * OW + ox] == clipped_relu_spec(
                it.conv_witness.output[oy][ox] as int,
                pp.config.clip_max as int,
            )
        },
{
    let s = pp.config.scale as int;
    let raw = conv_time_raw(step, e);
    vstd::arithmetic::div_mod::lemma_fundamental_div_mod(raw, s);
    vstd::arithmetic::mul::lemma_mul_is_commutative(s, raw / s);
    if 0 <= oy < OH && 0 <= ox < OW {
        let w = it.conv_witness;
        let bias = conv_effective_bias(step, pp.config, e);
        let cr = conv_raw::<IH, IW, KH, KW>(x, step.kernel, pp.padding, oy, ox);
        assert(w.raw[oy][ox] == cr);
        assert(w.quotient[oy][ox] == cr / s);
        assert(w.remainder[oy][ox] == cr % s);
        assert(w.output[oy][ox] == conv_output::<IH, IW, KH, KW>(x, step.kernel, bias, pp.padding, s, oy, ox));
        vstd::arithmetic::div_mod::lemma_fundamental_div_mod(cr, s);
        vstd::arithmetic::mul::lemma_mul_is_commutative(s, cr / s);
        let i = oy * OW + ox;
        vstd::arithmetic::div_mod::lemma_fundamental_div_mod_converse(i, IW as int, oy, ox);
        assert(0 <= i < N) by (nonlinear_arith)
            requires
                0 <= oy < OH,
                0 <= ox < OW,
                OH == IH,
                OW == IW,
                N == IH * IW,
                i == oy * OW + ox,
        ;
        let eps = conv_epsilon::<IH, IW, TE, KH, KW>(step, pp.config, pp.padding, x, e);
        assert(ints(it.epsilon_int)[i] == eps[i]);
    }
}

} // verus!

verus! {

/// The update of a convolutional denoise iteration: the update witness is the witness of the
/// update of `x` by the predicted noise `epsilon_int`, and the next state is its result (see
/// `lemma_denoise_update_witness_floor`).
pub proof fn lemma_conv_iteration_update<
    const N: usize,
    const IH: usize,
    const IW: usize,
    const TE: usize,
    const KH: usize,
    const KW: usize,
    const OH: usize,
    const OW: usize,
>(
    it: FixedDenoiseConvIteration<N, IH, IW, TE, KH, KW, OH, OW>,
    step: FixedDenoiseConvStepParams<TE, KH, KW>,
    pp: FixedDenoiseConvPublicParams<TE, KH, KW>,
    x: Seq<int>,
    e: Seq<int>,
    t: i64,
    j: int,
)
    requires
        N == IH * IW,
        conv_iteration_matches(it, step, pp, x, e, t),
    ensures
        ints(it.x_i_int) == x,
        denoise_update_matches(
            it.update_witness,
            pp.update_mode,
            ints(it.x_i_int),
            ints(it.epsilon_int),
            step.alpha as int,
            step.beta as int,
            pp.config.scale as int,
        ),
        0 <= j < N ==> it.x_i_plus_1_int[j] == it.update_witness.x_next_spec()[j],
{
    let eps = conv_epsilon::<IH, IW, TE, KH, KW>(step, pp.config, pp.padding, x, e);
    if 0 <= j < N {
        assert(ints(it.x_i_plus_1_int)[j] == conv_next::<IH, IW, TE, KH, KW>(
            step,
            pp.config,
            pp.padding,
            pp.update_mode,
            x,
            e,
        )[j]);
        match it.update_witness {
            DenoiseUpdateWitness::DoubleFloor { x_next, .. } => {
                assert(x_next[j] == crate::models::denoise_update::double_floor_update(
                    x[j],
                    eps[j],
                    step.alpha as int,
                    step.beta as int,
                    pp.config.scale as int,
                ));
            },
            DenoiseUpdateWitness::FusedFloor { x_next, .. } => {
                assert(x_next[j] == crate::models::denoise_update::fused_floor_update(
                    x[j],
                    eps[j],
                    step.alpha as int,
                    step.beta as int,
                    pp.config.scale as int,
                ));
            },
        }
    }
}

} // verus!
