use vstd::prelude::*;

use crate::error::TraceError;
use crate::fixed_point::{ints, FixedPointConfig};
use crate::matrix::{flat_matrix, push_matrix_row_major, push_vector};
use crate::models::two_layer::{
    two_layer_forward, two_layer_hidden_act, two_layer_matches, two_layer_ok, two_layer_output,
    TwoLayerWitness,
};

verus! {

/// Public parameters of one fixed-point two-layer MLP iteration:
/// `h = ClippedReLU(floor(W1 x / S) + b1)`, `x' = floor(W2 h / S) + b2`.
#[derive(Clone, Copy, Debug)]
pub struct FixedMlpClippedReluStepParams<const N: usize, const H: usize> {
    /// First affine layer: H x N, fixed-point encoded.
    pub w1: [[i64; N]; H],
    pub b1: [i64; H],
    /// Second affine layer: N x H, fixed-point encoded.
    pub w2: [[i64; H]; N],
    pub b2: [i64; N],
}

/// The per-iteration parameter sequence and the fixed-point configuration.
#[derive(Clone, Debug)]
pub struct FixedMlpClippedReluPublicParams<const N: usize, const H: usize> {
    pub params_seq: Vec<FixedMlpClippedReluStepParams<N, H>>,
    pub config: FixedPointConfig,
}

/// Length of one flattened parameter block `[W1 | b1 | W2 | b2]`.
pub open spec fn mlp_block_len_spec(n: nat, h: nat) -> nat {
    h * n + h + n * h + n
}

impl<const N: usize, const H: usize> FixedMlpClippedReluStepParams<N, H> {
    pub fn new(w1: [[i64; N]; H], b1: [i64; H], w2: [[i64; H]; N], b2: [i64; N]) -> (s: Self)
        ensures
            s == (Self { w1, b1, w2, b2 }),
    {
        Self { w1, b1, w2, b2 }
    }

    /// `H*N + H + N*H + N`.
    pub fn block_len() -> (len: usize)
        requires
            mlp_block_len_spec(N as nat, H as nat) <= usize::MAX,
        ensures
            len == mlp_block_len_spec(N as nat, H as nat),
    {
        proof {
            assert(H * N <= mlp_block_len_spec(N as nat, H as nat)) by (nonlinear_arith);
            assert(N * H <= mlp_block_len_spec(N as nat, H as nat)) by (nonlinear_arith);
        }
        H * N + H + N * H + N
    }

    /// Flatten layout: `[W1 row-major | b1 | W2 row-major | b2]`.
    pub open spec fn flatten_spec(&self) -> Seq<i64> {
        flat_matrix(self.w1) + self.b1@ + flat_matrix(self.w2) + self.b2@
    }

    /// Flatten layout: `[W1 row-major | b1 | W2 row-major | b2]`.
    pub fn flatten_i64(&self) -> (out: Vec<i64>)
        ensures
            out@ == self.flatten_spec(),
    {
        let mut out: Vec<i64> = Vec::new();
        push_matrix_row_major(&mut out, &self.w1);
        push_vector(&mut out, &self.b1);
        push_matrix_row_major(&mut out, &self.w2);
        push_vector(&mut out, &self.b2);
        out
    }
}

/// The flattened block has exactly `block_len` entries.
pub proof fn lemma_fixed_mlp_flatten_len<const N: usize, const H: usize>(
    p: FixedMlpClippedReluStepParams<N, H>,
)
    ensures
        p.flatten_spec().len() == mlp_block_len_spec(N as nat, H as nat),
{
    assert(N * H == H * N) by (nonlinear_arith);
}

impl<const N: usize, const H: usize> FixedMlpClippedReluPublicParams<N, H> {
    pub fn new(params_seq: Vec<FixedMlpClippedReluStepParams<N, H>>, config: FixedPointConfig) -> (s: Self)
        ensures
            s.params_seq@ == params_seq@,
            s.config == config,
    {
        Self { params_seq, config }
    }

    /// The number of iterations: one per parameter block.
    pub fn total_iters(&self) -> (n: usize)
        ensures
            n == self.params_seq@.len(),
    {
        self.params_seq.len()
    }
}

/// Integer witness of one fixed-point MLP iteration.
#[derive(Clone, Copy, Debug)]
pub struct FixedPointMlpClippedReluIteration<const N: usize, const H: usize> {
    pub x_i_int: [i64; N],
    pub hidden_raw_int: [i64; H],
    pub hidden_quotient_int: [i64; H],
    pub hidden_remainder_int: [i64; H],
    pub hidden_affine_int: [i64; H],
    pub hidden_act_int: [i64; H],
    pub output_raw_int: [i64; N],
    pub output_quotient_int: [i64; N],
    pub output_remainder_int: [i64; N],
    pub x_i_plus_1_int: [i64; N],
}

/// Hidden activations `ClippedReLU(floor(W1 x / S) + b1)`.
pub open spec fn fixed_mlp_hidden_act<const N: usize, const H: usize>(
    step: FixedMlpClippedReluStepParams<N, H>,
    config: FixedPointConfig,
    x: Seq<int>,
) -> Seq<int> {
    two_layer_hidden_act(step.w1, step.b1, config, x)
}

/// MLP output `floor(W2 h / S) + b2`.
pub open spec fn fixed_mlp_output<const N: usize, const H: usize>(
    step: FixedMlpClippedReluStepParams<N, H>,
    config: FixedPointConfig,
    x: Seq<int>,
) -> Seq<int> {
    two_layer_output(step.w1, step.b1, step.w2, step.b2, config, x)
}

/// One iteration from state `x` stays in range: the state is in the value range and the
/// perceptron stays in range (see `two_layer_ok`).
pub open spec fn fixed_mlp_step_ok<const N: usize, const H: usize>(
    step: FixedMlpClippedReluStepParams<N, H>,
    config: FixedPointConfig,
    x: Seq<int>,
) -> bool {
    &&& forall|j: int| 0 <= j < N ==> config.in_value_range(#[trigger] x[j])
    &&& two_layer_ok(step.w1, step.b1, step.w2, step.b2, config, x)
}

/// The perceptron witness carried by an MLP iteration.
pub open spec fn fixed_mlp_layer_witness<const N: usize, const H: usize>(
    it: FixedPointMlpClippedReluIteration<N, H>,
) -> TwoLayerWitness<H, N> {
    TwoLayerWitness {
        hidden_raw: it.hidden_raw_int,
        hidden_quotient: it.hidden_quotient_int,
        hidden_remainder: it.hidden_remainder_int,
        hidden_affine: it.hidden_affine_int,
        hidden_act: it.hidden_act_int,
        output_raw: it.output_raw_int,
        output_quotient: it.output_quotient_int,
        output_remainder: it.output_remainder_int,
        output: it.x_i_plus_1_int,
    }
}

/// `it` is the witness of one iteration from state `x`.
pub open spec fn fixed_mlp_iteration_matches<const N: usize, const H: usize>(
    it: FixedPointMlpClippedReluIteration<N, H>,
    step: FixedMlpClippedReluStepParams<N, H>,
    config: FixedPointConfig,
    x: Seq<int>,
) -> bool {
    &&& ints(it.x_i_int) == x
    &&& two_layer_matches(fixed_mlp_layer_witness(it), step.w1, step.b1, step.w2, step.b2, config, x)
}

/// One fixed-point MLP iteration from state `x`, with its witness; `Err` exactly when the
/// iteration leaves the admitted ranges.
pub fn fixed_point_mlp_iteration<const N: usize, const H: usize>(
    step: &FixedMlpClippedReluStepParams<N, H>,
    config: &FixedPointConfig,
    x: &[i64; N],
) -> (res: Result<FixedPointMlpClippedReluIteration<N, H>, TraceError>)
    requires
        config.scale > 0,
    ensures
        res is Ok <==> fixed_mlp_step_ok(*step, *config, ints(*x)),
        res matches Ok(it) ==> fixed_mlp_iteration_matches(it, *step, *config, ints(*x)),
{
    let ghost xs = ints(*x);
    let mut j: usize = 0;
    while j < N
        invariant
            j <= N,
            xs == ints(*x),
            forall|k: int| 0 <= k < j ==> config.in_value_range(#[trigger] xs[k]),
        decreases N - j,
    {
        if x[j] < config.value_min || x[j] > config.value_max {
            assert(!config.in_value_range(xs[j as int]));
            return Err(TraceError::OutOfRange);
        }
        j = j + 1;
    }
    let wit = match two_layer_forward(&step.w1, &step.b1, &step.w2, &step.b2, config, x) {
        Ok(w) => w,
        Err(e) => {
            return Err(e);
        },
    };
    let it = FixedPointMlpClippedReluIteration {
        x_i_int: *x,
        hidden_raw_int: wit.hidden_raw,
        hidden_quotient_int: wit.hidden_quotient,
        hidden_remainder_int: wit.hidden_remainder,
        hidden_affine_int: wit.hidden_affine,
        hidden_act_int: wit.hidden_act,
        output_raw_int: wit.output_raw,
        output_quotient_int: wit.output_quotient,
        output_remainder_int: wit.output_remainder,
        x_i_plus_1_int: wit.output,
    };
    assert(fixed_mlp_layer_witness(it) == wit);
    Ok(it)
}

} // verus!

verus! {

/// State `x_t` reached after the first `t` iterations from `x0`.
pub open spec fn fixed_mlp_state<const N: usize, const H: usize>(
    params: Seq<FixedMlpClippedReluStepParams<N, H>>,
    config: FixedPointConfig,
    x0: Seq<int>,
    t: int,
) -> Seq<int>
    decreases t,
{
    if t <= 0 {
        x0
    } else {
        fixed_mlp_output(params[t - 1], config, fixed_mlp_state(params, config, x0, t - 1))
    }
}

/// Every iteration of the run from `x0` stays in range.
pub open spec fn fixed_mlp_trace_ok<const N: usize, const H: usize>(
    params: Seq<FixedMlpClippedReluStepParams<N, H>>,
    config: FixedPointConfig,
    x0: Seq<int>,
) -> bool {
    forall|t: int|
        0 <= t < params.len() ==> fixed_mlp_step_ok(
            #[trigger] params[t],
            config,
            fixed_mlp_state(params, config, x0, t),
        )
}

/// Concatenation of the flattened parameter blocks, in order.
pub open spec fn fixed_mlp_params_flat<const N: usize, const H: usize>(
    params: Seq<FixedMlpClippedReluStepParams<N, H>>,
) -> Seq<i64>
    decreases params.len(),
{
    if params.len() == 0 {
        Seq::empty()
    } else {
        fixed_mlp_params_flat(params.drop_last()) + params.last().flatten_spec()
    }
}

/// Appends every flattened parameter block of `params` to `out`.
fn push_fixed_mlp_params<const N: usize, const H: usize>(
    out: &mut Vec<i64>,
    params: &Vec<FixedMlpClippedReluStepParams<N, H>>,
)
    ensures
        final(out)@ == old(out)@ + fixed_mlp_params_flat(params@),
{
    let ghost start = out@;
    let mut i: usize = 0;
    while i < params.len()
        invariant
            i <= params@.len(),
            out@ == start + fixed_mlp_params_flat(params@.take(i as int)),
        decreases params@.len() - i,
    {
        let mut block = params[i].flatten_i64();
        proof {
            assert(params@.take(i + 1).drop_last() =~= params@.take(i as int));
        }
        out.append(&mut block);
        proof {
            assert(out@ =~= start + fixed_mlp_params_flat(params@.take(i + 1)));
        }
        i = i + 1;
    }
    assert(params@.take(params@.len() as int) =~= params@);
}

/// Generates the public initial state `z0 = [x0 | params_0 | ... | params_{T-1}]` and the
/// integer witness trace of the fixed-point MLP recurrence
/// `x_{t+1} = floor(W2_t ClippedReLU(floor(W1_t x_t / S) + b1_t) / S) + b2_t`.
/// `Err` exactly when some iteration leaves the admitted ranges.
pub fn generate_fixed_point_mlp_trace<const N: usize, const H: usize>(
    public_params: &FixedMlpClippedReluPublicParams<N, H>,
    x0: [i64; N],
) -> (res: Result<(Vec<i64>, Vec<FixedPointMlpClippedReluIteration<N, H>>), TraceError>)
    requires
        public_params.config.scale > 0,
    ensures
        res is Ok <==> fixed_mlp_trace_ok(
            public_params.params_seq@,
            public_params.config,
            ints(x0),
        ),
        res matches Ok((z0, seq)) ==> {
            &&& z0@ == x0@ + fixed_mlp_params_flat(public_params.params_seq@)
            &&& seq@.len() == public_params.params_seq@.len()
            &&& forall|t: int|
                0 <= t < seq@.len() ==> fixed_mlp_iteration_matches(
                    #[trigger] seq@[t],
                    public_params.params_seq@[t],
                    public_params.config,
                    fixed_mlp_state(public_params.params_seq@, public_params.config, ints(x0), t),
                )
        },
{
    let ghost params = public_params.params_seq@;
    let config = public_params.config;
    let mut z0: Vec<i64> = Vec::new();
    push_vector(&mut z0, &x0);
    push_fixed_mlp_params(&mut z0, &public_params.params_seq);
    let mut x_i = x0;
    let mut seq: Vec<FixedPointMlpClippedReluIteration<N, H>> = Vec::new();
    let mut t: usize = 0;
    while t < public_params.params_seq.len()
        invariant
            t <= params.len(),
            params == public_params.params_seq@,
            config == public_params.config,
            config.scale > 0,
            seq@.len() == t,
            ints(x_i) == fixed_mlp_state(params, config, ints(x0), t as int),
            forall|k: int|
                0 <= k < t ==> fixed_mlp_step_ok(
                    #[trigger] params[k],
                    config,
                    fixed_mlp_state(params, config, ints(x0), k),
                ),
            forall|k: int|
                0 <= k < t ==> fixed_mlp_iteration_matches(
                    #[trigger] seq@[k],
                    params[k],
                    config,
                    fixed_mlp_state(params, config, ints(x0), k),
                ),
        decreases params.len() - t,
    {
        let step = public_params.params_seq[t];
        match fixed_point_mlp_iteration(&step, &config, &x_i) {
            Err(e) => {
                return Err(e);
            },
            Ok(it) => {
                x_i = it.x_i_plus_1_int;
                seq.push(it);
            },
        }
        t = t + 1;
    }
    Ok((z0, seq))
}

} // verus!

verus! {

/// A fixed-point MLP trace chains: iteration `0` starts at `x0` and iteration `t + 1` starts at
/// the state iteration `t` ends in.
pub proof fn lemma_fixed_mlp_trace_chains<const N: usize, const H: usize>(
    params: Seq<FixedMlpClippedReluStepParams<N, H>>,
    config: FixedPointConfig,
    x0: Seq<int>,
    seq: Seq<FixedPointMlpClippedReluIteration<N, H>>,
    t: int,
)
    requires
        seq.len() == params.len(),
        forall|k: int|
            0 <= k < seq.len() ==> fixed_mlp_iteration_matches(
                #[trigger] seq[k],
                params[k],
                config,
                fixed_mlp_state(params, config, x0, k),
            ),
        0 <= t,
        t + 1 < seq.len(),
    ensures
        ints(seq[0].x_i_int) == x0,
        ints(seq[t + 1].x_i_int) == ints(seq[t].x_i_plus_1_int),
{
    assert(fixed_mlp_iteration_matches(seq[0], params[0], config, fixed_mlp_state(params, config, x0, 0)));
    assert(fixed_mlp_iteration_matches(seq[t], params[t], config, fixed_mlp_state(params, config, x0, t)));
    assert(fixed_mlp_iteration_matches(seq[t + 1], params[t + 1], config, fixed_mlp_state(params, config, x0, t + 1)));
}

} // verus!

verus! {

/// The flattened block is `[W1 row-major | b1 | W2 row-major | b2]`, entry by entry: `W1[r][c]`
/// at `r*N + c`, `b1[r]` at `H*N + r`, `W2[r][c]` at `H*N + H + r*H + c`, `b2[r]` at
/// `H*N + H + N*H + r`.
pub proof fn lemma_fixed_mlp_flatten_entries<const N: usize, const H: usize>(
    p: FixedMlpClippedReluStepParams<N, H>,
    r: int,
    c: int,
)
    ensures
        p.flatten_spec().len() == H * N + H + N * H + N,
        0 <= r < H && 0 <= c < N ==> p.flatten_spec()[r * N + c] == p.w1[r][c],
        0 <= r < H ==> p.flatten_spec()[H * N + r] == p.b1[r],
        0 <= r < N && 0 <= c < H ==> p.flatten_spec()[H * N + H + r * H + c] == p.w2[r][c],
        0 <= r < N ==> p.flatten_spec()[H * N + H + N * H + r] == p.b2[r],
{
    assert(N * H == H * N) by (nonlinear_arith);
    assert(flat_matrix(p.w1).len() == H * N);
    assert(flat_matrix(p.w2).len() == N * H);
    if 0 <= r < H && 0 <= c < N {
        crate::matrix::lemma_flat_matrix_index(p.w1, r, c);
    }
    if 0 <= r < N && 0 <= c < H {
        crate::matrix::lemma_flat_matrix_index(p.w2, r, c);
    }
}

} // verus!

verus! {

/// `z0 = [x0 | params_0 | ... | params_{T-1}]` holds `x0` first and parameter block `i` at
/// `N + i*B` with `B = (H * N + H + N * H + N)` entries, for `N + T*B` entries in all.
pub proof fn lemma_fixed_mlp_z0_blocks<const N: usize, const H: usize>(params: Seq<FixedMlpClippedReluStepParams<N, H>>, x0: [i64; N], i: int)
    ensures
        ({
            let z0 = x0@ + fixed_mlp_params_flat(params);
            let b = (H * N + H + N * H + N) as int;
            &&& z0.len() == N + params.len() * b
            &&& z0.subrange(0, N as int) == x0@
            &&& 0 <= i < params.len() ==> z0.subrange(N + i * b, N + i * b + b) == params[i].flatten_spec()
        }),
    decreases params.len(),
{
    let b = (H * N + H + N * H + N) as int;
    assert(N * H == H * N) by (nonlinear_arith);
    let z0 = x0@ + fixed_mlp_params_flat(params);
    assert(z0.subrange(0, N as int) =~= x0@);
    if params.len() > 0 {
        let init = params.drop_last();
        lemma_fixed_mlp_z0_blocks(init, x0, i);
        lemma_fixed_mlp_flatten_entries(params.last(), 0, 0);
        assert(init.len() * b + b == params.len() * b) by (nonlinear_arith)
            requires
                init.len() + 1 == params.len(),
        ;
        assert(fixed_mlp_params_flat(params) == fixed_mlp_params_flat(init) + params.last().flatten_spec());
        if 0 <= i < params.len() {
            assert(0 <= i * b && i * b + b <= params.len() * b) by (nonlinear_arith)
                requires
                    0 <= i < params.len(),
                    0 <= b,
            ;
            if i < init.len() {
                assert(i * b + b <= init.len() * b) by (nonlinear_arith)
                    requires
                        0 <= i < init.len(),
                        0 <= b,
                ;
                assert(z0.subrange(N + i * b, N + i * b + b) =~= (x0@ + fixed_mlp_params_flat(init)).subrange(N + i * b, N + i * b + b));
            } else {
                assert(z0.subrange(N + i * b, N + i * b + b) =~= params.last().flatten_spec());
            }
        }
    }
}

} // verus!
