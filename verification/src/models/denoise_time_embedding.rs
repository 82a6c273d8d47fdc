use vstd::prelude::*;

use crate::error::TraceError;
use crate::fixed_point::{ints, FixedPointConfig};
use crate::matrix::{flat_matrix, push_matrix_row_major, push_vector};
use crate::models::denoise_update::{
    denoise_update_fits, denoise_update_matches, denoise_update_spec,
    try_compute_denoise_update_witness, DenoiseUpdateMode, DenoiseUpdateWitness,
};
use crate::models::two_layer::{
    two_layer_forward, two_layer_matches, two_layer_ok, two_layer_output, TwoLayerWitness,
};
use crate::padding::{pad_matrix_i64, pad_vector_i64, padded_vector};
use crate::public_state::layout::PublicStateLayout;

verus! {

/// Public parameters of one denoise iteration with a timestep embedding: the MLP over the input
/// `[x || e_t]` (`IN = N + TE`) and the schedule `(alpha, beta)`.
#[derive(Clone, Copy, Debug)]
pub struct FixedDenoiseTimeEmbeddingStepParams<const N: usize, const TE: usize, const IN: usize, const H: usize> {
    pub w1: [[i64; IN]; H],
    pub b1: [i64; H],
    pub w2: [[i64; H]; N],
    pub b2: [i64; N],
    pub alpha: i64,
    pub beta: i64,
}

/// The per-iteration parameters, the public embedding table (one row per timestep), the
/// fixed-point configuration and the update mode.
#[derive(Clone, Debug)]
pub struct FixedDenoiseTimeEmbeddingPublicParams<const N: usize, const TE: usize, const IN: usize, const H: usize> {
    pub params_seq: Vec<FixedDenoiseTimeEmbeddingStepParams<N, TE, IN, H>>,
    pub time_table: Vec<[i64; TE]>,
    pub config: FixedPointConfig,
    pub update_mode: DenoiseUpdateMode,
}

/// Length of one flattened block `[W1 | b1 | W2 | b2 | alpha | beta]`.
pub open spec fn te_block_len_spec(n: nat, input: nat, h: nat) -> nat {
    h * input + h + n * h + n + 2
}

impl<const N: usize, const TE: usize, const IN: usize, const H: usize> FixedDenoiseTimeEmbeddingStepParams<
    N,
    TE,
    IN,
    H,
> {
    pub fn new(
        w1: [[i64; IN]; H],
        b1: [i64; H],
        w2: [[i64; H]; N],
        b2: [i64; N],
        alpha: i64,
        beta: i64,
    ) -> (s: Self)
        requires
            IN == N + TE,
        ensures
            s == (Self { w1, b1, w2, b2, alpha, beta }),
    {
        Self { w1, b1, w2, b2, alpha, beta }
    }

    /// `H*IN + H + N*H + N + 2`.
    pub fn block_len() -> (len: usize)
        requires
            te_block_len_spec(N as nat, IN as nat, H as nat) <= usize::MAX,
        ensures
            len == te_block_len_spec(N as nat, IN as nat, H as nat),
    {
        proof {
            assert(H * IN <= te_block_len_spec(N as nat, IN as nat, H as nat)) by (nonlinear_arith);
            assert(N * H <= te_block_len_spec(N as nat, IN as nat, H as nat)) by (nonlinear_arith);
        }
        H * IN + H + N * H + N + 2
    }

    /// Flatten layout: `[W1 row-major | b1 | W2 row-major | b2 | alpha | beta]`.
    pub open spec fn flatten_spec(&self) -> Seq<i64> {
        (flat_matrix(self.w1) + self.b1@ + flat_matrix(self.w2) + self.b2@).push(self.alpha).push(
            self.beta,
        )
    }

    /// Flatten layout: `[W1 row-major | b1 | W2 row-major | b2 | alpha | beta]`.
    pub fn flatten_i64(&self) -> (out: Vec<i64>)
        ensures
            out@ == self.flatten_spec(),
    {
        let mut out: Vec<i64> = Vec::new();
        push_matrix_row_major(&mut out, &self.w1);
        push_vector(&mut out, &self.b1);
        push_matrix_row_major(&mut out, &self.w2);
        push_vector(&mut out, &self.b2);
        out.push(self.alpha);
        out.push(self.beta);
        out
    }
}

/// The flattened block has exactly `block_len` entries.
pub proof fn lemma_te_flatten_len<const N: usize, const TE: usize, const IN: usize, const H: usize>(
    p: FixedDenoiseTimeEmbeddingStepParams<N, TE, IN, H>,
)
    ensures
        p.flatten_spec().len() == te_block_len_spec(N as nat, IN as nat, H as nat),
{
    assert(IN * H == H * IN) by (nonlinear_arith);
    assert(N * H == H * N) by (nonlinear_arith);
}

impl<const N: usize, const TE: usize, const IN: usize, const H: usize> FixedDenoiseTimeEmbeddingPublicParams<
    N,
    TE,
    IN,
    H,
> {
    /// New parameters in the default `DoubleFloor` mode; one table row per iteration.
    pub fn new(
        params_seq: Vec<FixedDenoiseTimeEmbeddingStepParams<N, TE, IN, H>>,
        time_table: Vec<[i64; TE]>,
        config: FixedPointConfig,
    ) -> (s: Self)
        requires
            IN == N + TE,
            params_seq@.len() == time_table@.len(),
        ensures
            s.params_seq@ == params_seq@,
            s.time_table@ == time_table@,
            s.config == config,
            s.update_mode == DenoiseUpdateMode::DoubleFloor,
    {
        Self { params_seq, time_table, config, update_mode: DenoiseUpdateMode::DoubleFloor }
    }

    /// The same parameters with another update mode.
    pub fn with_update_mode(self, update_mode: DenoiseUpdateMode) -> (s: Self)
        ensures
            s.params_seq@ == self.params_seq@,
            s.time_table@ == self.time_table@,
            s.config == self.config,
            s.update_mode == update_mode,
    {
        let mut s = self;
        s.update_mode = update_mode;
        s
    }

    /// The number of iterations: one per parameter block.
    pub fn total_iters(&self) -> (n: usize)
        ensures
            n == self.params_seq@.len(),
    {
        self.params_seq.len()
    }

    /// Length of one flattened parameter block.
    pub fn block_len(&self) -> (len: usize)
        requires
            te_block_len_spec(N as nat, IN as nat, H as nat) <= usize::MAX,
        ensures
            len == te_block_len_spec(N as nat, IN as nat, H as nat),
    {
        FixedDenoiseTimeEmbeddingStepParams::<N, TE, IN, H>::block_len()
    }

    /// Number of entries of the flattened embedding table: `rows * TE`.
    pub fn time_table_len(&self) -> (len: usize)
        requires
            self.time_table@.len() * TE <= usize::MAX,
        ensures
            len == self.time_table@.len() * TE,
    {
        self.time_table.len() * TE
    }
}

} // verus!

verus! {

/// Entry `(r, c)` of the padded first-layer weights: real `x` weights stay in columns
/// `[0, N_REAL)`, real embedding weights move to columns `[N_MAX, N_MAX + TE_REAL)`, all other
/// entries are zero.
pub open spec fn padded_w1_entry<const H_REAL: usize, const IN_REAL: usize>(
    w1: [[i64; IN_REAL]; H_REAL],
    n_real: int,
    te_real: int,
    n_max: int,
    r: int,
    c: int,
) -> i64 {
    if r < H_REAL && c < n_real {
        w1[r][c]
    } else if r < H_REAL && n_max <= c < n_max + te_real {
        w1[r][n_real + (c - n_max)]
    } else {
        0
    }
}

/// `padded` is `unpadded` embedded into the maximum shape: `W1` as [`padded_w1_entry`] says, `W2`
/// in the top-left corner, biases as prefixes, all other entries zero, the schedule unchanged.
pub open spec fn te_step_params_padded<
    const N_REAL: usize,
    const TE_REAL: usize,
    const IN_REAL: usize,
    const H_REAL: usize,
    const N_MAX: usize,
    const TE_MAX: usize,
    const IN_MAX: usize,
    const H_MAX: usize,
>(
    padded: FixedDenoiseTimeEmbeddingStepParams<N_MAX, TE_MAX, IN_MAX, H_MAX>,
    unpadded: FixedDenoiseTimeEmbeddingStepParams<N_REAL, TE_REAL, IN_REAL, H_REAL>,
) -> bool {
    &&& forall|r: int, c: int|
        0 <= r < H_MAX && 0 <= c < IN_MAX ==> #[trigger] padded.w1[r][c] == padded_w1_entry(
            unpadded.w1,
            N_REAL as int,
            TE_REAL as int,
            N_MAX as int,
            r,
            c,
        )
    &&& padded.b1@ == padded_vector(unpadded.b1@, H_MAX as nat)
    &&& forall|r: int, c: int|
        0 <= r < N_MAX && 0 <= c < H_MAX ==> #[trigger] padded.w2[r][c] == crate::padding::padded_matrix_entry(
            unpadded.w2,
            r,
            c,
        )
    &&& padded.b2@ == padded_vector(unpadded.b2@, N_MAX as nat)
    &&& padded.alpha == unpadded.alpha
    &&& padded.beta == unpadded.beta
}

/// Embeds real-dimension denoise parameters into the maximum shape, keeping the input layout
/// `[x padded to N_MAX || embedding padded to TE_MAX]`: padded weights and biases are zero.
pub fn pad_denoise_time_embedding_step_params<
    const N_REAL: usize,
    const TE_REAL: usize,
    const IN_REAL: usize,
    const H_REAL: usize,
    const N_MAX: usize,
    const TE_MAX: usize,
    const IN_MAX: usize,
    const H_MAX: usize,
>(real_params: FixedDenoiseTimeEmbeddingStepParams<N_REAL, TE_REAL, IN_REAL, H_REAL>) -> (out:
    FixedDenoiseTimeEmbeddingStepParams<N_MAX, TE_MAX, IN_MAX, H_MAX>)
    requires
        IN_REAL == N_REAL + TE_REAL,
        IN_MAX == N_MAX + TE_MAX,
        N_REAL <= N_MAX,
        TE_REAL <= TE_MAX,
        H_REAL <= H_MAX,
    ensures
        te_step_params_padded(out, real_params),
{
    let mut w1 = [[0i64; IN_MAX]; H_MAX];
    let mut r: usize = 0;
    while r < H_REAL
        invariant
            r <= H_REAL <= H_MAX,
            IN_REAL == N_REAL + TE_REAL,
            IN_MAX == N_MAX + TE_MAX,
            N_REAL <= N_MAX,
            TE_REAL <= TE_MAX,
            forall|i: int, c: int|
                0 <= i < H_MAX && 0 <= c < IN_MAX ==> #[trigger] w1[i][c] == if i < r {
                    padded_w1_entry(real_params.w1, N_REAL as int, TE_REAL as int, N_MAX as int, i, c)
                } else {
                    0
                },
        decreases H_REAL - r,
    {
        let mut row = [0i64; IN_MAX];
        let mut c: usize = 0;
        while c < N_REAL
            invariant
                r < H_REAL,
                c <= N_REAL <= N_MAX <= IN_MAX,
                IN_REAL == N_REAL + TE_REAL,
                forall|k: int| 0 <= k < IN_MAX ==> #[trigger] row[k] == if k < c {
                    real_params.w1[r as int][k]
                } else {
                    0
                },
            decreases N_REAL - c,
        {
            row[c] = real_params.w1[r][c];
            c = c + 1;
        }
        let mut c: usize = 0;
        while c < TE_REAL
            invariant
                r < H_REAL,
                c <= TE_REAL <= TE_MAX,
                IN_REAL == N_REAL + TE_REAL,
                IN_MAX == N_MAX + TE_MAX,
                N_REAL <= N_MAX,
                forall|k: int| 0 <= k < IN_MAX ==> #[trigger] row[k] == if k < N_REAL {
                    real_params.w1[r as int][k]
                } else if N_MAX <= k < N_MAX + c {
                    real_params.w1[r as int][N_REAL + (k - N_MAX)]
                } else {
                    0
                },
            decreases TE_REAL - c,
        {
            row[N_MAX + c] = real_params.w1[r][N_REAL + c];
            c = c + 1;
        }
        w1[r] = row;
        r = r + 1;
    }
    FixedDenoiseTimeEmbeddingStepParams {
        w1,
        b1: pad_vector_i64::<H_REAL, H_MAX>(real_params.b1),
        w2: pad_matrix_i64::<N_REAL, H_REAL, N_MAX, H_MAX>(real_params.w2),
        b2: pad_vector_i64::<N_REAL, N_MAX>(real_params.b2),
        alpha: real_params.alpha,
        beta: real_params.beta,
    }
}

/// Pads every embedding row from `TE_REAL` to `TE_MAX` entries with zeros.
pub fn pad_time_table_vec<const TE_REAL: usize, const TE_MAX: usize>(table: Vec<[i64; TE_REAL]>) -> (out: Vec<
    [i64; TE_MAX],
>)
    requires
        TE_REAL <= TE_MAX,
    ensures
        out@.len() == table@.len(),
        forall|i: int| 0 <= i < table@.len() ==> (#[trigger] out@[i])@ == padded_vector(table@[i]@, TE_MAX as nat),
{
    let mut out: Vec<[i64; TE_MAX]> = Vec::new();
    let mut i: usize = 0;
    while i < table.len()
        invariant
            i <= table@.len(),
            TE_REAL <= TE_MAX,
            out@.len() == i,
            forall|k: int| 0 <= k < i ==> (#[trigger] out@[k])@ == padded_vector(table@[k]@, TE_MAX as nat),
        decreases table@.len() - i,
    {
        out.push(pad_vector_i64::<TE_REAL, TE_MAX>(table[i]));
        i = i + 1;
    }
    out
}

} // verus!

verus! {

/// Integer witness of one denoise iteration with timestep embedding.
#[derive(Clone, Copy, Debug)]
pub struct FixedDenoiseTimeEmbeddingIteration<const N: usize, const TE: usize, const IN: usize, const H: usize> {
    pub t_int: i64,
    pub time_emb_int: [i64; TE],
    pub x_i_int: [i64; N],
    pub mlp_input_int: [i64; IN],
    pub hidden_raw_int: [i64; H],
    pub hidden_quotient_int: [i64; H],
    pub hidden_remainder_int: [i64; H],
    pub hidden_affine_int: [i64; H],
    pub hidden_act_int: [i64; H],
    pub epsilon_int: [i64; N],
    pub output_raw_int: [i64; N],
    pub output_quotient_int: [i64; N],
    pub output_remainder_int: [i64; N],
    pub alpha_x_int: [i64; N],
    pub beta_epsilon_int: [i64; N],
    pub x_i_plus_1_int: [i64; N],
    pub alpha_mul_raw_int: [i64; N],
    pub alpha_remainder_int: [i64; N],
    pub beta_mul_raw_int: [i64; N],
    pub beta_remainder_int: [i64; N],
    pub update_witness: DenoiseUpdateWitness<N>,
}

/// Predicted noise `eps = MLP([x || e])`.
pub open spec fn te_epsilon<const N: usize, const TE: usize, const IN: usize, const H: usize>(
    step: FixedDenoiseTimeEmbeddingStepParams<N, TE, IN, H>,
    config: FixedPointConfig,
    x: Seq<int>,
    e: Seq<int>,
) -> Seq<int> {
    two_layer_output(step.w1, step.b1, step.w2, step.b2, config, x + e)
}

/// Next state: the denoise update of `x` by `eps = MLP([x || e])` in the given mode.
pub open spec fn te_next<const N: usize, const TE: usize, const IN: usize, const H: usize>(
    step: FixedDenoiseTimeEmbeddingStepParams<N, TE, IN, H>,
    config: FixedPointConfig,
    mode: DenoiseUpdateMode,
    x: Seq<int>,
    e: Seq<int>,
) -> Seq<int> {
    let eps = te_epsilon(step, config, x, e);
    Seq::new(
        N as nat,
        |j: int| denoise_update_spec(mode, x[j], eps[j], step.alpha as int, step.beta as int, config.scale as int),
    )
}

/// The rescale quotients of one coordinate's update are in the quotient range.
pub open spec fn update_quotients_ok(
    mode: DenoiseUpdateMode,
    config: FixedPointConfig,
    x: int,
    eps: int,
    alpha: int,
    beta: int,
) -> bool {
    let s = config.scale as int;
    match mode {
        DenoiseUpdateMode::DoubleFloor => config.in_quotient_range((alpha * x) / s)
            && config.in_quotient_range((beta * eps) / s),
        DenoiseUpdateMode::FusedFloor => config.in_quotient_range((alpha * x + beta * eps) / s),
    }
}

/// One iteration from state `x` with embedding row `e` stays in range: `x` is in the value
/// range, the MLP over `[x || e]` stays in range, the update does not overflow, its quotients
/// are in the quotient range and the next state is in the value range.
pub open spec fn te_step_ok<const N: usize, const TE: usize, const IN: usize, const H: usize>(
    step: FixedDenoiseTimeEmbeddingStepParams<N, TE, IN, H>,
    config: FixedPointConfig,
    mode: DenoiseUpdateMode,
    x: Seq<int>,
    e: Seq<int>,
) -> bool {
    let eps = te_epsilon(step, config, x, e);
    let s = config.scale as int;
    &&& forall|j: int| 0 <= j < N ==> config.in_value_range(#[trigger] x[j])
    &&& two_layer_ok(step.w1, step.b1, step.w2, step.b2, config, x + e)
    &&& denoise_update_fits(mode, x, eps, step.alpha as int, step.beta as int, s)
    &&& forall|j: int|
        0 <= j < N ==> update_quotients_ok(mode, config, #[trigger] x[j], eps[j], step.alpha as int, step.beta as int)
            && config.in_value_range(
            denoise_update_spec(mode, x[j], eps[j], step.alpha as int, step.beta as int, s),
        )
}

/// The perceptron witness carried by an iteration.
pub open spec fn te_layer_witness<const N: usize, const TE: usize, const IN: usize, const H: usize>(
    it: FixedDenoiseTimeEmbeddingIteration<N, TE, IN, H>,
) -> TwoLayerWitness<H, N> {
    TwoLayerWitness {
        hidden_raw: it.hidden_raw_int,
        hidden_quotient: it.hidden_quotient_int,
        hidden_remainder: it.hidden_remainder_int,
        hidden_affine: it.hidden_affine_int,
        hidden_act: it.hidden_act_int,
        output_raw: it.output_raw_int,
        output_quotient: it.output_quotient_int,
        output_remainder: it.output_remainder_int,
        output: it.epsilon_int,
    }
}

/// The `DoubleFloor` parts of the update witness, copied out; all zero in `FusedFloor` mode.
pub open spec fn te_double_floor_parts_match<const N: usize, const TE: usize, const IN: usize, const H: usize>(
    it: FixedDenoiseTimeEmbeddingIteration<N, TE, IN, H>,
) -> bool {
    match it.update_witness {
        DenoiseUpdateWitness::DoubleFloor { alpha_raw, alpha_q, alpha_r, beta_raw, beta_q, beta_r, .. } => {
            &&& it.alpha_mul_raw_int == alpha_raw
            &&& it.alpha_x_int == alpha_q
            &&& it.alpha_remainder_int == alpha_r
            &&& it.beta_mul_raw_int == beta_raw
            &&& it.beta_epsilon_int == beta_q
            &&& it.beta_remainder_int == beta_r
        },
        DenoiseUpdateWitness::FusedFloor { .. } => {
            &&& forall|j: int| 0 <= j < N ==> #[trigger] it.alpha_mul_raw_int[j] == 0
            &&& forall|j: int| 0 <= j < N ==> #[trigger] it.alpha_x_int[j] == 0
            &&& forall|j: int| 0 <= j < N ==> #[trigger] it.alpha_remainder_int[j] == 0
            &&& forall|j: int| 0 <= j < N ==> #[trigger] it.beta_mul_raw_int[j] == 0
            &&& forall|j: int| 0 <= j < N ==> #[trigger] it.beta_epsilon_int[j] == 0
            &&& forall|j: int| 0 <= j < N ==> #[trigger] it.beta_remainder_int[j] == 0
        },
    }
}

/// `it` is the witness of iteration `t` from state `x` with embedding row `e`.
pub open spec fn te_iteration_matches<const N: usize, const TE: usize, const IN: usize, const H: usize>(
    it: FixedDenoiseTimeEmbeddingIteration<N, TE, IN, H>,
    step: FixedDenoiseTimeEmbeddingStepParams<N, TE, IN, H>,
    config: FixedPointConfig,
    mode: DenoiseUpdateMode,
    x: Seq<int>,
    e: Seq<int>,
    t: i64,
) -> bool {
    let eps = te_epsilon(step, config, x, e);
    &&& it.t_int == t
    &&& ints(it.time_emb_int) == e
    &&& ints(it.x_i_int) == x
    &&& ints(it.mlp_input_int) == x + e
    &&& two_layer_matches(te_layer_witness(it), step.w1, step.b1, step.w2, step.b2, config, x + e)
    &&& denoise_update_matches(it.update_witness, mode, x, eps, step.alpha as int, step.beta as int, config.scale as int)
    &&& te_double_floor_parts_match(it)
    &&& ints(it.x_i_plus_1_int) == te_next(step, config, mode, x, e)
}

/// One denoise iteration `t` with timestep embedding row `time_emb`, with its witness; `Err`
/// exactly when it leaves the admitted ranges.
pub fn fixed_point_denoise_time_embedding_iteration<const N: usize, const TE: usize, const IN: usize, const H: usize>(
    step: &FixedDenoiseTimeEmbeddingStepParams<N, TE, IN, H>,
    config: &FixedPointConfig,
    mode: DenoiseUpdateMode,
    x: &[i64; N],
    time_emb: &[i64; TE],
    t_int: i64,
) -> (res: Result<FixedDenoiseTimeEmbeddingIteration<N, TE, IN, H>, TraceError>)
    requires
        IN == N + TE,
        config.scale > 0,
    ensures
        res is Ok <==> te_step_ok(*step, *config, mode, ints(*x), ints(*time_emb)),
        res matches Ok(it) ==> te_iteration_matches(it, *step, *config, mode, ints(*x), ints(*time_emb), t_int),
{
    let ghost xs = ints(*x);
    let ghost es = ints(*time_emb);
    let ghost s = config.scale as int;
    let mut j: usize = 0;
    while j < N
        invariant
            j <= N,
            xs == ints(*x),
            forall|k: int| 0 <= k < j ==> config.in_value_range(#[trigger] xs[k]),
        decreases N - j,
    {
        if x[j] < config.value_min || x[j] > config.value_max {
            assert(!config.in_value_range(xs[j as int]));
            return Err(TraceError::OutOfRange);
        }
        j = j + 1;
    }
    let mut mlp_input = [0i64; IN];
    let mut j: usize = 0;
    while j < N
        invariant
            j <= N,
            IN == N + TE,
            forall|k: int| 0 <= k < j ==> #[trigger] mlp_input[k] == x[k],
        decreases N - j,
    {
        mlp_input[j] = x[j];
        j = j + 1;
    }
    let mut j: usize = 0;
    while j < TE
        invariant
            j <= TE,
            IN == N + TE,
            forall|k: int| 0 <= k < N ==> #[trigger] mlp_input[k] == x[k],
            forall|k: int| 0 <= k < j ==> #[trigger] mlp_input[N + k] == time_emb[k],
        decreases TE - j,
    {
        mlp_input[N + j] = time_emb[j];
        j = j + 1;
    }
    proof {
        assert forall|k: int| 0 <= k < IN implies #[trigger] ints(mlp_input)[k] == (xs + es)[k] by {
            if k >= N {
                assert(mlp_input[N + (k - N)] == time_emb[k - N]);
            }
        }
        assert(ints(mlp_input) =~= xs + es);
    }
    let wit = match two_layer_forward(&step.w1, &step.b1, &step.w2, &step.b2, config, &mlp_input) {
        Ok(w) => w,
        Err(e) => {
            return Err(e);
        },
    };
    let epsilon = wit.output;
    let ghost eps = te_epsilon(*step, *config, xs, es);
    assert(ints(epsilon) == eps);
    let uw = match try_compute_denoise_update_witness(x, &epsilon, step.alpha, step.beta, config.scale, mode) {
        Some(w) => w,
        None => {
            return Err(TraceError::OutOfRange);
        },
    };
    let x_next = *uw.x_next();
    let mut j: usize = 0;
    while j < N
        invariant
            j <= N,
            xs == ints(*x),
            eps == ints(epsilon),
            es == ints(*time_emb),
            eps == te_epsilon(*step, *config, xs, es),
            s == config.scale as int,
            x_next == uw.x_next_spec(),
            denoise_update_matches(uw, mode, xs, eps, step.alpha as int, step.beta as int, s),
            forall|k: int|
                0 <= k < j ==> update_quotients_ok(mode, *config, #[trigger] xs[k], eps[k], step.alpha as int, step.beta as int)
                    && config.in_value_range(
                    denoise_update_spec(mode, xs[k], eps[k], step.alpha as int, step.beta as int, s),
                ),
        decreases N - j,
    {
        match &uw {
            DenoiseUpdateWitness::DoubleFloor { alpha_q, beta_q, .. } => {
                assert(alpha_q[j as int] == (step.alpha * xs[j as int]) / s);
                assert(beta_q[j as int] == (step.beta * eps[j as int]) / s);
                if alpha_q[j] < config.quotient_min || alpha_q[j] > config.quotient_max {
                    return Err(TraceError::OutOfRange);
                }
                if beta_q[j] < config.quotient_min || beta_q[j] > config.quotient_max {
                    return Err(TraceError::OutOfRange);
                }
            },
            DenoiseUpdateWitness::FusedFloor { fused_q, .. } => {
                assert(fused_q[j as int] == (step.alpha * xs[j as int] + step.beta * eps[j as int]) / s);
                if fused_q[j] < config.quotient_min || fused_q[j] > config.quotient_max {
                    return Err(TraceError::OutOfRange);
                }
            },
        }
        assert(x_next[j as int] == denoise_update_spec(mode, xs[j as int], eps[j as int], step.alpha as int, step.beta as int, s));
        if x_next[j] < config.value_min || x_next[j] > config.value_max {
            return Err(TraceError::OutOfRange);
        }
        j = j + 1;
    }
    let (alpha_mul_raw, alpha_x, alpha_rem, beta_mul_raw, beta_eps, beta_rem) = match &uw {
        DenoiseUpdateWitness::DoubleFloor { alpha_raw, alpha_q, alpha_r, beta_raw, beta_q, beta_r, .. } => {
            (*alpha_raw, *alpha_q, *alpha_r, *beta_raw, *beta_q, *beta_r)
        },
        DenoiseUpdateWitness::FusedFloor { .. } => {
            ([0i64; N], [0i64; N], [0i64; N], [0i64; N], [0i64; N], [0i64; N])
        },
    };
    proof {
        assert forall|k: int| 0 <= k < N implies #[trigger] ints(x_next)[k] == te_next(*step, *config, mode, xs, es)[k] by {
            assert(x_next[k] == denoise_update_spec(mode, xs[k], eps[k], step.alpha as int, step.beta as int, s));
        }
        assert(ints(x_next) =~= te_next(*step, *config, mode, xs, es));
    }
    let it = FixedDenoiseTimeEmbeddingIteration {
        t_int,
        time_emb_int: *time_emb,
        x_i_int: *x,
        mlp_input_int: mlp_input,
        hidden_raw_int: wit.hidden_raw,
        hidden_quotient_int: wit.hidden_quotient,
        hidden_remainder_int: wit.hidden_remainder,
        hidden_affine_int: wit.hidden_affine,
        hidden_act_int: wit.hidden_act,
        epsilon_int: epsilon,
        output_raw_int: wit.output_raw,
        output_quotient_int: wit.output_quotient,
        output_remainder_int: wit.output_remainder,
        alpha_x_int: alpha_x,
        beta_epsilon_int: beta_eps,
        x_i_plus_1_int: x_next,
        alpha_mul_raw_int: alpha_mul_raw,
        alpha_remainder_int: alpha_rem,
        beta_mul_raw_int: beta_mul_raw,
        beta_remainder_int: beta_rem,
        update_witness: uw,
    };
    assert(te_layer_witness(it) == wit);
    Ok(it)
}

} // verus!

verus! {

/// State `x_t` after the first `t` iterations from `x0`, embedding row `t` feeding iteration `t`.
pub open spec fn te_state<const N: usize, const TE: usize, const IN: usize, const H: usize>(
    params: Seq<FixedDenoiseTimeEmbeddingStepParams<N, TE, IN, H>>,
    table: Seq<[i64; TE]>,
    config: FixedPointConfig,
    mode: DenoiseUpdateMode,
    x0: Seq<int>,
    t: int,
) -> Seq<int>
    decreases t,
{
    if t <= 0 {
        x0
    } else {
        te_next(params[t - 1], config, mode, te_state(params, table, config, mode, x0, t - 1), ints(table[t - 1]))
    }
}

/// Every iteration of the run from `x0` stays in range.
pub open spec fn te_trace_ok<const N: usize, const TE: usize, const IN: usize, const H: usize>(
    params: Seq<FixedDenoiseTimeEmbeddingStepParams<N, TE, IN, H>>,
    table: Seq<[i64; TE]>,
    config: FixedPointConfig,
    mode: DenoiseUpdateMode,
    x0: Seq<int>,
) -> bool {
    forall|t: int|
        0 <= t < params.len() ==> te_step_ok(
            #[trigger] params[t],
            config,
            mode,
            te_state(params, table, config, mode, x0, t),
            ints(table[t]),
        )
}

/// Concatenation of the flattened parameter blocks, in order.
pub open spec fn te_params_flat<const N: usize, const TE: usize, const IN: usize, const H: usize>(
    params: Seq<FixedDenoiseTimeEmbeddingStepParams<N, TE, IN, H>>,
) -> Seq<i64>
    decreases params.len(),
{
    if params.len() == 0 {
        Seq::empty()
    } else {
        te_params_flat(params.drop_last()) + params.last().flatten_spec()
    }
}

/// Concatenation of the table rows, in order.
pub open spec fn table_flat<const TE: usize>(table: Seq<[i64; TE]>) -> Seq<i64>
    decreases table.len(),
{
    if table.len() == 0 {
        Seq::empty()
    } else {
        table_flat(table.drop_last()) + table.last()@
    }
}

/// Appends every flattened parameter block of `params` to `out`.
pub fn push_te_params<const N: usize, const TE: usize, const IN: usize, const H: usize>(
    out: &mut Vec<i64>,
    params: &Vec<FixedDenoiseTimeEmbeddingStepParams<N, TE, IN, H>>,
)
    ensures
        final(out)@ == old(out)@ + te_params_flat(params@),
{
    let ghost start = out@;
    let mut i: usize = 0;
    while i < params.len()
        invariant
            i <= params@.len(),
            out@ == start + te_params_flat(params@.take(i as int)),
        decreases params@.len() - i,
    {
        let mut block = params[i].flatten_i64();
        proof {
            assert(params@.take(i + 1).drop_last() =~= params@.take(i as int));
        }
        out.append(&mut block);
        proof {
            assert(out@ =~= start + te_params_flat(params@.take(i + 1)));
        }
        i = i + 1;
    }
    assert(params@.take(params@.len() as int) =~= params@);
}

/// Appends every table row to `out`, in order.
pub fn push_table<const TE: usize>(out: &mut Vec<i64>, table: &Vec<[i64; TE]>)
    ensures
        final(out)@ == old(out)@ + table_flat(table@),
{
    let ghost start = out@;
    let mut i: usize = 0;
    while i < table.len()
        invariant
            i <= table@.len(),
            out@ == start + table_flat(table@.take(i as int)),
        decreases table@.len() - i,
    {
        proof {
            assert(table@.take(i + 1).drop_last() =~= table@.take(i as int));
        }
        push_vector(out, &table[i]);
        proof {
            assert(out@ =~= start + table_flat(table@.take(i + 1)));
        }
        i = i + 1;
    }
    assert(table@.take(table@.len() as int) =~= table@);
}

/// Generates `z0 = [x0 | t0 = 0 | params_0 | ... | params_{T-1} | E_0 | ... | E_{T-1}]` and the
/// integer witness trace of `e_t = table[t]`, `eps_t = MLP_t([x_t || e_t])`,
/// `x_{t+1} = update(x_t, eps_t)` in the configured mode. `Err` exactly when some iteration
/// leaves the admitted ranges.
pub fn generate_fixed_point_denoise_time_embedding_trace<const N: usize, const TE: usize, const IN: usize, const H: usize>(
    public_params: &FixedDenoiseTimeEmbeddingPublicParams<N, TE, IN, H>,
    x0: [i64; N],
) -> (res: Result<(Vec<i64>, Vec<FixedDenoiseTimeEmbeddingIteration<N, TE, IN, H>>), TraceError>)
    requires
        IN == N + TE,
        public_params.config.scale > 0,
        public_params.params_seq@.len() <= public_params.time_table@.len(),
    ensures
        res is Ok <==> te_trace_ok(
            public_params.params_seq@,
            public_params.time_table@,
            public_params.config,
            public_params.update_mode,
            ints(x0),
        ),
        res matches Ok((z0, seq)) ==> {
            &&& z0@ == x0@.push(0) + te_params_flat(public_params.params_seq@) + table_flat(
                public_params.time_table@,
            )
            &&& seq@.len() == public_params.params_seq@.len()
            &&& forall|t: int|
                0 <= t < seq@.len() ==> te_iteration_matches(
                    #[trigger] seq@[t],
                    public_params.params_seq@[t],
                    public_params.config,
                    public_params.update_mode,
                    te_state(
                        public_params.params_seq@,
                        public_params.time_table@,
                        public_params.config,
                        public_params.update_mode,
                        ints(x0),
                        t,
                    ),
                    ints(public_params.time_table@[t]),
                    t as i64,
                )
        },
{
    let ghost params = public_params.params_seq@;
    let ghost table = public_params.time_table@;
    let config = public_params.config;
    let mode = public_params.update_mode;
    let mut z0: Vec<i64> = Vec::new();
    push_vector(&mut z0, &x0);
    z0.push(0);
    push_te_params(&mut z0, &public_params.params_seq);
    push_table(&mut z0, &public_params.time_table);
    let mut x_i = x0;
    let mut seq: Vec<FixedDenoiseTimeEmbeddingIteration<N, TE, IN, H>> = Vec::new();
    let mut t: usize = 0;
    while t < public_params.params_seq.len()
        invariant
            IN == N + TE,
            t <= params.len() <= table.len(),
            params == public_params.params_seq@,
            table == public_params.time_table@,
            config == public_params.config,
            mode == public_params.update_mode,
            config.scale > 0,
            seq@.len() == t,
            ints(x_i) == te_state(params, table, config, mode, ints(x0), t as int),
            forall|k: int|
                0 <= k < t ==> te_step_ok(
                    #[trigger] params[k],
                    config,
                    mode,
                    te_state(params, table, config, mode, ints(x0), k),
                    ints(table[k]),
                ),
            forall|k: int|
                0 <= k < t ==> te_iteration_matches(
                    #[trigger] seq@[k],
                    params[k],
                    config,
                    mode,
                    te_state(params, table, config, mode, ints(x0), k),
                    ints(table[k]),
                    k as i64,
                ),
        decreases params.len() - t,
    {
        let step = public_params.params_seq[t];
        let row = public_params.time_table[t];
        match fixed_point_denoise_time_embedding_iteration(&step, &config, mode, &x_i, &row, t as i64) {
            Err(e) => {
                return Err(e);
            },
            Ok(it) => {
                x_i = it.x_i_plus_1_int;
                seq.push(it);
            },
        }
        t = t + 1;
    }
    Ok((z0, seq))
}

} // verus!

verus! {

/// A time-embedding denoise trace chains: iteration `0` starts at `x0` and iteration `t + 1`
/// starts at the state iteration `t` ends in.
pub proof fn lemma_te_trace_chains<const N: usize, const TE: usize, const IN: usize, const H: usize>(
    params: Seq<FixedDenoiseTimeEmbeddingStepParams<N, TE, IN, H>>,
    table: Seq<[i64; TE]>,
    config: FixedPointConfig,
    mode: DenoiseUpdateMode,
    x0: Seq<int>,
    seq: Seq<FixedDenoiseTimeEmbeddingIteration<N, TE, IN, H>>,
    t: int,
)
    requires
        seq.len() == params.len(),
        forall|k: int|
            0 <= k < seq.len() ==> te_iteration_matches(
                #[trigger] seq[k],
                params[k],
                config,
                mode,
                te_state(params, table, config, mode, x0, k),
                ints(table[k]),
                k as i64,
            ),
        0 <= t,
        t + 1 < seq.len(),
    ensures
        ints(seq[0].x_i_int) == x0,
        ints(seq[t + 1].x_i_int) == ints(seq[t].x_i_plus_1_int),
{
    assert(te_iteration_matches(seq[0], params[0], config, mode, te_state(params, table, config, mode, x0, 0), ints(table[0]), 0 as i64));
    assert(te_iteration_matches(seq[t], params[t], config, mode, te_state(params, table, config, mode, x0, t), ints(table[t]), t as i64));
    assert(te_iteration_matches(
        seq[t + 1],
        params[t + 1],
        config,
        mode,
        te_state(params, table, config, mode, x0, t + 1),
        ints(table[t + 1]),
        (t + 1) as i64,
    ));
}

} // verus!

verus! {

/// The concatenated table has `rows * TE` entries, row `i` at offset `i * TE`.
pub proof fn lemma_table_flat_rows<const TE: usize>(table: Seq<[i64; TE]>, i: int)
    ensures
        table_flat(table).len() == table.len() * TE,
        0 <= i < table.len() ==> table_flat(table).subrange(i * TE, i * TE + TE) == table[i]@,
    decreases table.len(),
{
    if table.len() > 0 {
        let init = table.drop_last();
        lemma_table_flat_rows(init, i);
        assert(init.len() * TE + TE == table.len() * TE) by (nonlinear_arith)
            requires
                init.len() + 1 == table.len(),
        ;
        if 0 <= i < table.len() {
            assert(0 <= i * TE && i * TE + TE <= table.len() * TE) by (nonlinear_arith)
                requires
                    0 <= i < table.len(),
            ;
            if i < init.len() {
                assert(i * TE + TE <= init.len() * TE) by (nonlinear_arith)
                    requires
                        0 <= i < init.len(),
                ;
                assert(table_flat(table).subrange(i * TE, i * TE + TE) =~= table_flat(init).subrange(
                    i * TE,
                    i * TE + TE,
                ));
            } else {
                assert(table_flat(table).subrange(i * TE, i * TE + TE) =~= table.last()@);
            }
        }
    }
}

/// The time-embedding parameter blocks have `te_block_len` entries each, block `i` at offset
/// `i * te_block_len`.
pub proof fn lemma_te_params_flat_blocks<const N: usize, const TE: usize, const IN: usize, const H: usize>(
    params: Seq<FixedDenoiseTimeEmbeddingStepParams<N, TE, IN, H>>,
    i: int,
)
    ensures
        te_params_flat(params).len() == params.len() * te_block_len_spec(N as nat, IN as nat, H as nat),
        0 <= i < params.len() ==> te_params_flat(params).subrange(
            i * te_block_len_spec(N as nat, IN as nat, H as nat),
            i * te_block_len_spec(N as nat, IN as nat, H as nat) + te_block_len_spec(N as nat, IN as nat, H as nat),
        ) == params[i].flatten_spec(),
    decreases params.len(),
{
    let b = te_block_len_spec(N as nat, IN as nat, H as nat) as int;
    if params.len() > 0 {
        let init = params.drop_last();
        lemma_te_params_flat_blocks(init, i);
        lemma_te_flatten_len(params.last());
        assert(init.len() * b + b == params.len() * b) by (nonlinear_arith)
            requires
                init.len() + 1 == params.len(),
        ;
        if 0 <= i < params.len() {
            assert(0 <= i * b && i * b + b <= params.len() * b) by (nonlinear_arith)
                requires
                    0 <= i < params.len(),
                    0 <= b,
            ;
            if i < init.len() {
                assert(i * b + b <= init.len() * b) by (nonlinear_arith)
                    requires
                        0 <= i < init.len(),
                        0 <= b,
                ;
                assert(te_params_flat(params).subrange(i * b, i * b + b) =~= te_params_flat(init).subrange(
                    i * b,
                    i * b + b,
                ));
            } else {
                assert(te_params_flat(params).subrange(i * b, i * b + b) =~= params.last().flatten_spec());
            }
        }
    }
}

/// The initial public state `[x0 | 0 | params... | table...]` of a time-embedding trace has the
/// layout `PublicStateLayout { n: N, has_output: false, has_commitment: false, .. }`: its length is
/// the layout's state length, `x0` is at `x_range`, `t = 0` is at `t_index`, every parameter block
/// is at its `param_block_range` and every table row at its `time_table_row_range`.
pub proof fn lemma_te_z0_matches_layout<const N: usize, const TE: usize, const IN: usize, const H: usize>(
    params: Seq<FixedDenoiseTimeEmbeddingStepParams<N, TE, IN, H>>,
    table: Seq<[i64; TE]>,
    x0: [i64; N],
    layout: PublicStateLayout,
    i: int,
)
    requires
        params.len() == table.len(),
        layout == (PublicStateLayout {
            n: N,
            has_output: false,
            has_commitment: false,
            total_iters: params.len() as usize,
            param_block_len: te_block_len_spec(N as nat, IN as nat, H as nat) as usize,
            time_emb_dim: TE,
        }),
        params.len() <= usize::MAX,
        te_block_len_spec(N as nat, IN as nat, H as nat) <= usize::MAX,
    ensures
        ({
            let z0 = x0@.push(0) + te_params_flat(params) + table_flat(table);
            &&& z0.len() == layout.state_len_spec()
            &&& z0.subrange(0, N as int) == x0@
            &&& z0[layout.t_index_spec()] == 0
            &&& 0 <= i < params.len() ==> z0.subrange(
                layout.block_start_spec(i),
                layout.block_start_spec(i) + layout.param_block_len,
            ) == params[i].flatten_spec()
            &&& 0 <= i < params.len() ==> z0.subrange(
                layout.row_start_spec(i),
                layout.row_start_spec(i) + TE,
            ) == table[i]@
        }),
{
    let z0 = x0@.push(0) + te_params_flat(params) + table_flat(table);
    let b = te_block_len_spec(N as nat, IN as nat, H as nat) as int;
    lemma_te_params_flat_blocks(params, i);
    lemma_table_flat_rows(table, i);
    let pf = te_params_flat(params);
    let tf = table_flat(table);
    assert(z0.subrange(0, N as int) =~= x0@);
    if 0 <= i < params.len() {
        assert(0 <= i * b && i * b + b <= params.len() * b) by (nonlinear_arith)
            requires
                0 <= i < params.len(),
                0 <= b,
        ;
        assert(0 <= i * TE && i * TE + TE <= table.len() * TE) by (nonlinear_arith)
            requires
                0 <= i < table.len(),
        ;
        assert(z0.subrange(N + 1 + i * b, N + 1 + i * b + b) =~= pf.subrange(i * b, i * b + b));
        assert(z0.subrange(N + 1 + pf.len() + i * TE, N + 1 + pf.len() + i * TE + TE) =~= tf.subrange(
            i * TE,
            i * TE + TE,
        ));
    }
}

} // verus!

verus! {

/// The flattened block is `[W1 row-major | b1 | W2 row-major | b2 | alpha | beta]`, entry by
/// entry: `W1[r][c]` at `r*IN + c`, `b1[r]` at `H*IN + r`, `W2[r][c]` at `H*IN + H + r*H + c`,
/// `b2[r]` at `H*IN + H + N*H + r`, then `alpha` and `beta` last.
pub proof fn lemma_te_flatten_entries<const N: usize, const TE: usize, const IN: usize, const H: usize>(
    p: FixedDenoiseTimeEmbeddingStepParams<N, TE, IN, H>,
    r: int,
    c: int,
)
    ensures
        p.flatten_spec().len() == H * IN + H + N * H + N + 2,
        0 <= r < H && 0 <= c < IN ==> p.flatten_spec()[r * IN + c] == p.w1[r][c],
        0 <= r < H ==> p.flatten_spec()[H * IN + r] == p.b1[r],
        0 <= r < N && 0 <= c < H ==> p.flatten_spec()[H * IN + H + r * H + c] == p.w2[r][c],
        0 <= r < N ==> p.flatten_spec()[H * IN + H + N * H + r] == p.b2[r],
        p.flatten_spec()[H * IN + H + N * H + N] == p.alpha,
        p.flatten_spec()[H * IN + H + N * H + N + 1] == p.beta,
{
    let f = p.flatten_spec();
    assert(IN * H == H * IN && N * H == H * N) by (nonlinear_arith);
    assert(flat_matrix(p.w1).len() == H * IN);
    assert(flat_matrix(p.w2).len() == N * H);
    if 0 <= r < H && 0 <= c < IN {
        crate::matrix::lemma_flat_matrix_index(p.w1, r, c);
    }
    if 0 <= r < N && 0 <= c < H {
        crate::matrix::lemma_flat_matrix_index(p.w2, r, c);
    }
}

} // verus!

verus! {

/// A time-embedding denoise iteration: the MLP input is `[x || e]`, the predicted noise is the
/// perceptron witness's output over that input, and the next state is the update witness's
/// result for `x` and that noise (see `lemma_denoise_update_witness_floor`).
pub proof fn lemma_te_iteration_arithmetic<const N: usize, const TE: usize, const IN: usize, const H: usize>(
    it: FixedDenoiseTimeEmbeddingIteration<N, TE, IN, H>,
    step: FixedDenoiseTimeEmbeddingStepParams<N, TE, IN, H>,
    config: FixedPointConfig,
    mode: DenoiseUpdateMode,
    x: Seq<int>,
    e: Seq<int>,
    t: i64,
    j: int,
)
    requires
        IN == N + TE,
        te_iteration_matches(it, step, config, mode, x, e, t),
    ensures
        ints(it.x_i_int) == x,
        ints(it.time_emb_int) == e,
        0 <= j < N ==> it.mlp_input_int[j] == it.x_i_int[j],
        0 <= j < TE ==> it.mlp_input_int[N + j] == it.time_emb_int[j],
        two_layer_matches(te_layer_witness(it), step.w1, step.b1, step.w2, step.b2, config, ints(it.mlp_input_int)),
        te_layer_witness(it).output == it.epsilon_int,
        denoise_update_matches(
            it.update_witness,
            mode,
            ints(it.x_i_int),
            ints(it.epsilon_int),
            step.alpha as int,
            step.beta as int,
            config.scale as int,
        ),
        0 <= j < N ==> it.x_i_plus_1_int[j] == it.update_witness.x_next_spec()[j],
{
    let eps = te_epsilon(step, config, x, e);
    if 0 <= j < N {
        assert(ints(it.mlp_input_int)[j] == (x + e)[j]);
        assert(ints(it.x_i_int)[j] == x[j]);
        assert(ints(it.x_i_plus_1_int)[j] == te_next(step, config, mode, x, e)[j]);
        match it.update_witness {
            DenoiseUpdateWitness::DoubleFloor { x_next, .. } => {
                assert(x_next[j] == crate::models::denoise_update::double_floor_update(
                    x[j],
                    eps[j],
                    step.alpha as int,
                    step.beta as int,
                    config.scale as int,
                ));
            },
            DenoiseUpdateWitness::FusedFloor { x_next, .. } => {
                assert(x_next[j] == crate::models::denoise_update::fused_floor_update(
                    x[j],
                    eps[j],
                    step.alpha as int,
                    step.beta as int,
                    config.scale as int,
                ));
            },
        }
    }
    if 0 <= j < TE {
        assert(ints(it.mlp_input_int)[N + j] == (x + e)[N + j]);
        assert(ints(it.time_emb_int)[j] == e[j]);
    }
}

} // verus!
