use vstd::prelude::*;

use crate::error::TraceError;
use crate::fixed_point::{ints, FixedPointConfig};
use crate::matrix::push_vector;
use crate::models::denoise_update::{
    denoise_update_fits, double_floor_update, try_compute_denoise_update_witness,
    DenoiseUpdateMode, DenoiseUpdateWitness,
};
use crate::models::mlp_fixed_point::{
    fixed_mlp_iteration_matches, fixed_mlp_output, fixed_mlp_step_ok, fixed_point_mlp_iteration,
    mlp_block_len_spec, FixedMlpClippedReluStepParams, FixedPointMlpClippedReluIteration,
};

verus! {

/// Public parameters of one fixed-point denoise iteration: the noise-predicting MLP and the
/// schedule `(alpha, beta)`.
#[derive(Clone, Copy, Debug)]
pub struct FixedDenoiseStepParams<const N: usize, const H: usize> {
    pub mlp: FixedMlpClippedReluStepParams<N, H>,
    pub alpha: i64,
    pub beta: i64,
}

/// The per-iteration parameters and the fixed-point configuration.
#[derive(Clone, Debug)]
pub struct FixedDenoisePublicParams<const N: usize, const H: usize> {
    pub params_seq: Vec<FixedDenoiseStepParams<N, H>>,
    pub config: FixedPointConfig,
}

/// Length of one flattened denoise block `[W1 | b1 | W2 | b2 | alpha | beta]`.
pub open spec fn denoise_block_len_spec(n: nat, h: nat) -> nat {
    mlp_block_len_spec(n, h) + 2
}

impl<const N: usize, const H: usize> FixedDenoiseStepParams<N, H> {
    pub fn new(mlp: FixedMlpClippedReluStepParams<N, H>, alpha: i64, beta: i64) -> (s: Self)
        ensures
            s == (Self { mlp, alpha, beta }),
    {
        Self { mlp, alpha, beta }
    }

    /// The MLP block length plus two schedule entries.
    pub fn block_len() -> (len: usize)
        requires
            denoise_block_len_spec(N as nat, H as nat) <= usize::MAX,
        ensures
            len == denoise_block_len_spec(N as nat, H as nat),
    {
        FixedMlpClippedReluStepParams::<N, H>::block_len() + 2
    }

    /// Flatten layout: `[W1 | b1 | W2 | b2 | alpha | beta]`.
    pub open spec fn flatten_spec(&self) -> Seq<i64> {
        self.mlp.flatten_spec().push(self.alpha).push(self.beta)
    }

    /// Flatten layout: `[W1 | b1 | W2 | b2 | alpha | beta]`.
    pub fn flatten_i64(&self) -> (out: Vec<i64>)
        ensures
            out@ == self.flatten_spec(),
    {
        let mut out = self.mlp.flatten_i64();
        out.push(self.alpha);
        out.push(self.beta);
        out
    }
}

impl<const N: usize, const H: usize> FixedDenoisePublicParams<N, H> {
    pub fn new(params_seq: Vec<FixedDenoiseStepParams<N, H>>, config: FixedPointConfig) -> (s: Self)
        ensures
            s.params_seq@ == params_seq@,
            s.config == config,
    {
        Self { params_seq, config }
    }

    /// The number of iterations: one per parameter block.
    pub fn total_iters(&self) -> (n: usize)
        ensures
            n == self.params_seq@.len(),
    {
        self.params_seq.len()
    }

    /// Length of one flattened parameter block.
    pub fn block_len(&self) -> (len: usize)
        requires
            denoise_block_len_spec(N as nat, H as nat) <= usize::MAX,
        ensures
            len == denoise_block_len_spec(N as nat, H as nat),
    {
        FixedDenoiseStepParams::<N, H>::block_len()
    }
}

/// Length of one public parameter block of the denoise circuit.
pub fn param_block_len<const N: usize, const H: usize>() -> (len: usize)
    requires
        denoise_block_len_spec(N as nat, H as nat) <= usize::MAX,
    ensures
        len == denoise_block_len_spec(N as nat, H as nat),
{
    FixedDenoiseStepParams::<N, H>::block_len()
}

/// Length of the MLP part of a parameter block (the block without `alpha` and `beta`).
pub fn mlp_block_len<const N: usize, const H: usize>() -> (len: usize)
    requires
        denoise_block_len_spec(N as nat, H as nat) <= usize::MAX,
    ensures
        len == mlp_block_len_spec(N as nat, H as nat),
{
    param_block_len::<N, H>() - 2
}

/// Length of the public state `[x | params_0 | ... | params_{T-1}]`.
pub fn state_len<const N: usize, const H: usize>(total_iters: usize) -> (len: usize)
    requires
        denoise_block_len_spec(N as nat, H as nat) <= usize::MAX,
        N + total_iters * denoise_block_len_spec(N as nat, H as nat) <= usize::MAX,
    ensures
        len == N + total_iters * denoise_block_len_spec(N as nat, H as nat),
{
    N + total_iters * param_block_len::<N, H>()
}

} // verus!

verus! {

/// Integer witness of one fixed-point denoise iteration.
#[derive(Clone, Copy, Debug)]
pub struct FixedDenoiseIteration<const N: usize, const H: usize> {
    pub x_i_int: [i64; N],
    pub hidden_affine_int: [i64; H],
    pub hidden_act_int: [i64; H],
    pub epsilon_int: [i64; N],
    pub alpha_x_int: [i64; N],
    pub beta_epsilon_int: [i64; N],
    pub x_i_plus_1_int: [i64; N],
    pub alpha_mul_raw_int: [i64; N],
    pub alpha_remainder_int: [i64; N],
    pub beta_mul_raw_int: [i64; N],
    pub beta_remainder_int: [i64; N],
    pub mlp_witness: FixedPointMlpClippedReluIteration<N, H>,
}

/// Next state `x' = floor(alpha x / S) + floor(beta eps / S)` with `eps = MLP(x)`.
pub open spec fn denoise_next<const N: usize, const H: usize>(
    step: FixedDenoiseStepParams<N, H>,
    config: FixedPointConfig,
    x: Seq<int>,
) -> Seq<int> {
    let eps = fixed_mlp_output(step.mlp, config, x);
    Seq::new(
        N as nat,
        |j: int| double_floor_update(x[j], eps[j], step.alpha as int, step.beta as int, config.scale as int),
    )
}

/// One denoise iteration from `x` stays in range: the MLP iteration does, the products
/// `alpha x` and `beta eps` fit in `i64`, their rescale quotients are in the quotient range and
/// the next state is in the value range.
pub open spec fn denoise_step_ok<const N: usize, const H: usize>(
    step: FixedDenoiseStepParams<N, H>,
    config: FixedPointConfig,
    x: Seq<int>,
) -> bool {
    let eps = fixed_mlp_output(step.mlp, config, x);
    let s = config.scale as int;
    &&& fixed_mlp_step_ok(step.mlp, config, x)
    &&& denoise_update_fits(DenoiseUpdateMode::DoubleFloor, x, eps, step.alpha as int, step.beta as int, s)
    &&& forall|j: int|
        0 <= j < N ==> {
            &&& config.in_quotient_range((step.alpha * #[trigger] x[j]) / s)
            &&& config.in_quotient_range((step.beta * eps[j]) / s)
            &&& config.in_value_range(double_floor_update(x[j], eps[j], step.alpha as int, step.beta as int, s))
        }
}

/// `it` is the witness of one denoise iteration from `x`.
pub open spec fn denoise_iteration_matches<const N: usize, const H: usize>(
    it: FixedDenoiseIteration<N, H>,
    step: FixedDenoiseStepParams<N, H>,
    config: FixedPointConfig,
    x: Seq<int>,
) -> bool {
    let eps = fixed_mlp_output(step.mlp, config, x);
    let s = config.scale as int;
    let a = step.alpha as int;
    let b = step.beta as int;
    &&& fixed_mlp_iteration_matches(it.mlp_witness, step.mlp, config, x)
    &&& ints(it.x_i_int) == x
    &&& it.hidden_affine_int == it.mlp_witness.hidden_affine_int
    &&& it.hidden_act_int == it.mlp_witness.hidden_act_int
    &&& ints(it.epsilon_int) == eps
    &&& forall|j: int| 0 <= j < N ==> #[trigger] it.alpha_mul_raw_int[j] == a * x[j]
    &&& forall|j: int| 0 <= j < N ==> #[trigger] it.alpha_x_int[j] == (a * x[j]) / s
    &&& forall|j: int| 0 <= j < N ==> #[trigger] it.alpha_remainder_int[j] == (a * x[j]) % s
    &&& forall|j: int| 0 <= j < N ==> #[trigger] it.beta_mul_raw_int[j] == b * eps[j]
    &&& forall|j: int| 0 <= j < N ==> #[trigger] it.beta_epsilon_int[j] == (b * eps[j]) / s
    &&& forall|j: int| 0 <= j < N ==> #[trigger] it.beta_remainder_int[j] == (b * eps[j]) % s
    &&& ints(it.x_i_plus_1_int) == denoise_next(step, config, x)
}

/// One fixed-point denoise iteration from `x` with its witness; `Err` exactly when it leaves
/// the admitted ranges.
pub fn fixed_point_denoise_iteration<const N: usize, const H: usize>(
    step: &FixedDenoiseStepParams<N, H>,
    config: &FixedPointConfig,
    x: &[i64; N],
) -> (res: Result<FixedDenoiseIteration<N, H>, TraceError>)
    requires
        config.scale > 0,
    ensures
        res is Ok <==> denoise_step_ok(*step, *config, ints(*x)),
        res matches Ok(it) ==> denoise_iteration_matches(it, *step, *config, ints(*x)),
{
    let ghost xs = ints(*x);
    let ghost s = config.scale as int;
    let mlp_it = match fixed_point_mlp_iteration(&step.mlp, config, x) {
        Ok(it) => it,
        Err(e) => {
            return Err(e);
        },
    };
    let epsilon = mlp_it.x_i_plus_1_int;
    let ghost eps = fixed_mlp_output(step.mlp, *config, xs);
    assert(ints(epsilon) == eps);
    let w = match try_compute_denoise_update_witness(
        x,
        &epsilon,
        step.alpha,
        step.beta,
        config.scale,
        DenoiseUpdateMode::DoubleFloor,
    ) {
        Some(w) => w,
        None => {
            return Err(TraceError::OutOfRange);
        },
    };
    match w {
        DenoiseUpdateWitness::DoubleFloor { alpha_raw, alpha_q, alpha_r, beta_raw, beta_q, beta_r, x_next } => {
            let mut j: usize = 0;
            while j < N
                invariant
                    j <= N,
                    xs == ints(*x),
                    eps == ints(epsilon),
                    eps == fixed_mlp_output(step.mlp, *config, xs),
                    s == config.scale as int,
                    forall|k: int| 0 <= k < N ==> #[trigger] alpha_q[k] == (step.alpha * xs[k]) / s,
                    forall|k: int| 0 <= k < N ==> #[trigger] beta_q[k] == (step.beta * eps[k]) / s,
                    forall|k: int|
                        0 <= k < N ==> #[trigger] x_next[k] == double_floor_update(
                            xs[k],
                            eps[k],
                            step.alpha as int,
                            step.beta as int,
                            s,
                        ),
                    forall|k: int|
                        0 <= k < j ==> {
                            &&& config.in_quotient_range((step.alpha * #[trigger] xs[k]) / s)
                            &&& config.in_quotient_range((step.beta * eps[k]) / s)
                            &&& config.in_value_range(
                                double_floor_update(xs[k], eps[k], step.alpha as int, step.beta as int, s),
                            )
                        },
                decreases N - j,
            {
                assert(alpha_q[j as int] == (step.alpha * xs[j as int]) / s);
                assert(beta_q[j as int] == (step.beta * eps[j as int]) / s);
                assert(x_next[j as int] == double_floor_update(
                    xs[j as int],
                    eps[j as int],
                    step.alpha as int,
                    step.beta as int,
                    s,
                ));
                if alpha_q[j] < config.quotient_min || alpha_q[j] > config.quotient_max {
                    return Err(TraceError::OutOfRange);
                }
                if beta_q[j] < config.quotient_min || beta_q[j] > config.quotient_max {
                    return Err(TraceError::OutOfRange);
                }
                if x_next[j] < config.value_min || x_next[j] > config.value_max {
                    return Err(TraceError::OutOfRange);
                }
                j = j + 1;
            }
            proof {
                assert(ints(x_next) =~= denoise_next(*step, *config, xs));
            }
            Ok(FixedDenoiseIteration {
                x_i_int: *x,
                hidden_affine_int: mlp_it.hidden_affine_int,
                hidden_act_int: mlp_it.hidden_act_int,
                epsilon_int: epsilon,
                alpha_x_int: alpha_q,
                beta_epsilon_int: beta_q,
                x_i_plus_1_int: x_next,
                alpha_mul_raw_int: alpha_raw,
                alpha_remainder_int: alpha_r,
                beta_mul_raw_int: beta_raw,
                beta_remainder_int: beta_r,
                mlp_witness: mlp_it,
            })
        },
        DenoiseUpdateWitness::FusedFloor { .. } => {
            proof {
                assert(false);
            }
            Err(TraceError::OutOfRange)
        },
    }
}

} // verus!

verus! {

/// State `x_t` reached after the first `t` denoise iterations from `x0`.
pub open spec fn denoise_state<const N: usize, const H: usize>(
    params: Seq<FixedDenoiseStepParams<N, H>>,
    config: FixedPointConfig,
    x0: Seq<int>,
    t: int,
) -> Seq<int>
    decreases t,
{
    if t <= 0 {
        x0
    } else {
        denoise_next(params[t - 1], config, denoise_state(params, config, x0, t - 1))
    }
}

/// Every denoise iteration of the run from `x0` stays in range.
pub open spec fn denoise_trace_ok<const N: usize, const H: usize>(
    params: Seq<FixedDenoiseStepParams<N, H>>,
    config: FixedPointConfig,
    x0: Seq<int>,
) -> bool {
    forall|t: int|
        0 <= t < params.len() ==> denoise_step_ok(
            #[trigger] params[t],
            config,
            denoise_state(params, config, x0, t),
        )
}

/// Concatenation of the flattened denoise parameter blocks, in order.
pub open spec fn denoise_params_flat<const N: usize, const H: usize>(
    params: Seq<FixedDenoiseStepParams<N, H>>,
) -> Seq<i64>
    decreases params.len(),
{
    if params.len() == 0 {
        Seq::empty()
    } else {
        denoise_params_flat(params.drop_last()) + params.last().flatten_spec()
    }
}

fn push_denoise_params<const N: usize, const H: usize>(
    out: &mut Vec<i64>,
    params: &Vec<FixedDenoiseStepParams<N, H>>,
)
    ensures
        final(out)@ == old(out)@ + denoise_params_flat(params@),
{
    let ghost start = out@;
    let mut i: usize = 0;
    while i < params.len()
        invariant
            i <= params@.len(),
            out@ == start + denoise_params_flat(params@.take(i as int)),
        decreases params@.len() - i,
    {
        let mut block = params[i].flatten_i64();
        proof {
            assert(params@.take(i + 1).drop_last() =~= params@.take(i as int));
        }
        out.append(&mut block);
        proof {
            assert(out@ =~= start + denoise_params_flat(params@.take(i + 1)));
        }
        i = i + 1;
    }
    assert(params@.take(params@.len() as int) =~= params@);
}

/// Generates `z0 = [x0 | denoise_params_0 | ... | denoise_params_{T-1}]` and the integer witness
/// trace of `eps_t = MLP_t(x_t)`, `x_{t+1} = floor(alpha_t x_t / S) + floor(beta_t eps_t / S)`.
/// `Err` exactly when some iteration leaves the admitted ranges.
pub fn generate_fixed_point_denoise_trace<const N: usize, const H: usize>(
    public_params: &FixedDenoisePublicParams<N, H>,
    x0: [i64; N],
) -> (res: Result<(Vec<i64>, Vec<FixedDenoiseIteration<N, H>>), TraceError>)
    requires
        public_params.config.scale > 0,
    ensures
        res is Ok <==> denoise_trace_ok(public_params.params_seq@, public_params.config, ints(x0)),
        res matches Ok((z0, seq)) ==> {
            &&& z0@ == x0@ + denoise_params_flat(public_params.params_seq@)
            &&& seq@.len() == public_params.params_seq@.len()
            &&& forall|t: int|
                0 <= t < seq@.len() ==> denoise_iteration_matches(
                    #[trigger] seq@[t],
                    public_params.params_seq@[t],
                    public_params.config,
                    denoise_state(public_params.params_seq@, public_params.config, ints(x0), t),
                )
        },
{
    let ghost params = public_params.params_seq@;
    let config = public_params.config;
    let mut z0: Vec<i64> = Vec::new();
    push_vector(&mut z0, &x0);
    push_denoise_params(&mut z0, &public_params.params_seq);
    let mut x_i = x0;
    let mut seq: Vec<FixedDenoiseIteration<N, H>> = Vec::new();
    let mut t: usize = 0;
    while t < public_params.params_seq.len()
        invariant
            t <= params.len(),
            params == public_params.params_seq@,
            config == public_params.config,
            config.scale > 0,
            seq@.len() == t,
            ints(x_i) == denoise_state(params, config, ints(x0), t as int),
            forall|k: int|
                0 <= k < t ==> denoise_step_ok(
                    #[trigger] params[k],
                    config,
                    denoise_state(params, config, ints(x0), k),
                ),
            forall|k: int|
                0 <= k < t ==> denoise_iteration_matches(
                    #[trigger] seq@[k],
                    params[k],
                    config,
                    denoise_state(params, config, ints(x0), k),
                ),
        decreases params.len() - t,
    {
        let step = public_params.params_seq[t];
        match fixed_point_denoise_iteration(&step, &config, &x_i) {
            Err(e) => {
                return Err(e);
            },
            Ok(it) => {
                x_i = it.x_i_plus_1_int;
                seq.push(it);
            },
        }
        t = t + 1;
    }
    Ok((z0, seq))
}

} // verus!

verus! {

/// A fixed-point denoise trace chains: iteration `0` starts at `x0` and iteration `t + 1` starts
/// at the state iteration `t` ends in.
pub proof fn lemma_denoise_trace_chains<const N: usize, const H: usize>(
    params: Seq<FixedDenoiseStepParams<N, H>>,
    config: FixedPointConfig,
    x0: Seq<int>,
    seq: Seq<FixedDenoiseIteration<N, H>>,
    t: int,
)
    requires
        seq.len() == params.len(),
        forall|k: int|
            0 <= k < seq.len() ==> denoise_iteration_matches(
                #[trigger] seq[k],
                params[k],
                config,
                denoise_state(params, config, x0, k),
            ),
        0 <= t,
        t + 1 < seq.len(),
    ensures
        ints(seq[0].x_i_int) == x0,
        ints(seq[t + 1].x_i_int) == ints(seq[t].x_i_plus_1_int),
{
    assert(denoise_iteration_matches(seq[0], params[0], config, denoise_state(params, config, x0, 0)));
    assert(denoise_iteration_matches(seq[t], params[t], config, denoise_state(params, config, x0, t)));
    assert(denoise_iteration_matches(seq[t + 1], params[t + 1], config, denoise_state(params, config, x0, t + 1)));
}

} // verus!

verus! {

/// The flattened denoise block is the MLP block followed by `alpha` and `beta`, entry by entry:
/// `W1[r][c]` at `r*N + c`, `b1[r]` at `H*N + r`, `W2[r][c]` at `H*N + H + r*H + c`, `b2[r]`
/// at `H*N + H + N*H + r`, then `alpha` and `beta` last.
pub proof fn lemma_denoise_flatten_entries<const N: usize, const H: usize>(
    p: FixedDenoiseStepParams<N, H>,
    r: int,
    c: int,
)
    ensures
        p.flatten_spec().len() == H * N + H + N * H + N + 2,
        0 <= r < H && 0 <= c < N ==> p.flatten_spec()[r * N + c] == p.mlp.w1[r][c],
        0 <= r < H ==> p.flatten_spec()[H * N + r] == p.mlp.b1[r],
        0 <= r < N && 0 <= c < H ==> p.flatten_spec()[H * N + H + r * H + c] == p.mlp.w2[r][c],
        0 <= r < N ==> p.flatten_spec()[H * N + H + N * H + r] == p.mlp.b2[r],
        p.flatten_spec()[H * N + H + N * H + N] == p.alpha,
        p.flatten_spec()[H * N + H + N * H + N + 1] == p.beta,
{
    crate::models::mlp_fixed_point::lemma_fixed_mlp_flatten_entries(p.mlp, r, c);
    assert(0 <= H * N && 0 <= N * H) by (nonlinear_arith);
    if 0 <= r < H && 0 <= c < N {
        assert(r * N + c < H * N) by (nonlinear_arith)
            requires
                0 <= r < H,
                0 <= c < N,
        ;
    }
    if 0 <= r < N && 0 <= c < H {
        assert(0 <= r * H + c < N * H) by (nonlinear_arith)
            requires
                0 <= r < N,
                0 <= c < H,
        ;
    }
}

} // verus!

verus! {

/// A fixed-point denoise iteration: the predicted noise is the MLP witness's output, each
/// schedule product is floor-divided by `S` (`alpha x = alpha_x * S + alpha_r`,
/// `beta eps = beta_eps * S + beta_r`, remainders in `[0, S)`), and the next state is
/// `alpha_x + beta_eps`.
pub proof fn lemma_denoise_iteration_arithmetic<const N: usize, const H: usize>(
    it: FixedDenoiseIteration<N, H>,
    step: FixedDenoiseStepParams<N, H>,
    config: FixedPointConfig,
    x: Seq<int>,
    j: int,
)
    requires
        config.scale > 0,
        denoise_iteration_matches(it, step, config, x),
        0 <= j < N,
    ensures
        ints(it.x_i_int) == x,
        it.epsilon_int[j] == it.mlp_witness.x_i_plus_1_int[j],
        it.alpha_mul_raw_int[j] == step.alpha * it.x_i_int[j],
        it.alpha_x_int[j] * config.scale + it.alpha_remainder_int[j] == it.alpha_mul_raw_int[j],
        0 <= it.alpha_remainder_int[j] < config.scale,
        it.beta_mul_raw_int[j] == step.beta * it.epsilon_int[j],
        it.beta_epsilon_int[j] * config.scale + it.beta_remainder_int[j] == it.beta_mul_raw_int[j],
        0 <= it.beta_remainder_int[j] < config.scale,
        it.x_i_plus_1_int[j] == it.alpha_x_int[j] + it.beta_epsilon_int[j],
{
    let s = config.scale as int;
    let eps = fixed_mlp_output(step.mlp, config, x);
    assert(ints(it.epsilon_int)[j] == eps[j]);
    assert(ints(it.x_i_int)[j] == x[j]);
    assert(ints(it.mlp_witness.x_i_plus_1_int)[j] == eps[j]);
    assert(ints(it.x_i_plus_1_int)[j] == denoise_next(step, config, x)[j]);
    let ax = step.alpha * x[j];
    let be = step.beta * eps[j];
    vstd::arithmetic::div_mod::lemma_fundamental_div_mod(ax, s);
    vstd::arithmetic::div_mod::lemma_fundamental_div_mod(be, s);
    vstd::arithmetic::mul::lemma_mul_is_commutative(s, ax / s);
    vstd::arithmetic::mul::lemma_mul_is_commutative(s, be / s);
}

} // verus!

verus! {

/// `z0 = [x0 | params_0 | ... | params_{T-1}]` holds `x0` first and parameter block `i` at
/// `N + i*B` with `B = (H * N + H + N * H + N + 2)` entries, for `N + T*B` entries in all.
pub proof fn lemma_denoise_z0_blocks<const N: usize, const H: usize>(params: Seq<FixedDenoiseStepParams<N, H>>, x0: [i64; N], i: int)
    ensures
        ({
            let z0 = x0@ + denoise_params_flat(params);
            let b = (H * N + H + N * H + N + 2) as int;
            &&& z0.len() == N + params.len() * b
            &&& z0.subrange(0, N as int) == x0@
            &&& 0 <= i < params.len() ==> z0.subrange(N + i * b, N + i * b + b) == params[i].flatten_spec()
        }),
    decreases params.len(),
{
    let b = (H * N + H + N * H + N + 2) as int;
    assert(N * H == H * N) by (nonlinear_arith);
    let z0 = x0@ + denoise_params_flat(params);
    assert(z0.subrange(0, N as int) =~= x0@);
    if params.len() > 0 {
        let init = params.drop_last();
        lemma_denoise_z0_blocks(init, x0, i);
        lemma_denoise_flatten_entries(params.last(), 0, 0);
        assert(init.len() * b + b == params.len() * b) by (nonlinear_arith)
            requires
                init.len() + 1 == params.len(),
        ;
        assert(denoise_params_flat(params) == denoise_params_flat(init) + params.last().flatten_spec());
        if 0 <= i < params.len() {
            assert(0 <= i * b && i * b + b <= params.len() * b) by (nonlinear_arith)
                requires
                    0 <= i < params.len(),
                    0 <= b,
            ;
            if i < init.len() {
                assert(i * b + b <= init.len() * b) by (nonlinear_arith)
                    requires
                        0 <= i < init.len(),
                        0 <= b,
                ;
                assert(z0.subrange(N + i * b, N + i * b + b) =~= (x0@ + denoise_params_flat(init)).subrange(N + i * b, N + i * b + b));
            } else {
                assert(z0.subrange(N + i * b, N + i * b + b) =~= params.last().flatten_spec());
            }
        }
    }
}

} // verus!
