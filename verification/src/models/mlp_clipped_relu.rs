use vstd::prelude::*;

use crate::activations::{clipped_relu_spec, ClippedReluLookupTable};
use crate::error::TraceError;
use crate::fixed_point::{checked_dot, dot_fits, dot_from, ints};
use crate::matrix::{flat_matrix, push_matrix_row_major, push_vector};

verus! {

/// Integer parameters of one MLP iteration `x' = W2 clipped_relu(W1 x + b1) + b2`, with `W1`
/// of shape `H x N` and `W2` of shape `N x H`.
#[derive(Clone, Copy, Debug)]
pub struct IntMlpClippedReluStepParams<const N: usize, const H: usize> {
    pub w1: [[i64; N]; H],
    pub b1: [i64; H],
    pub w2: [[i64; H]; N],
    pub b2: [i64; N],
}

/// The per-iteration parameters and the clipped-ReLU lookup table.
#[derive(Clone, Debug)]
pub struct MlpClippedReluPublicParams<const N: usize, const H: usize> {
    pub params_seq: Vec<IntMlpClippedReluStepParams<N, H>>,
    pub clipped_relu_table: ClippedReluLookupTable,
}

/// Length of one flattened block `[W1 | b1 | W2 | b2]`.
pub open spec fn int_mlp_block_len_spec(n: nat, h: nat) -> nat {
    h * n + h + n * h + n
}

impl<const N: usize, const H: usize> IntMlpClippedReluStepParams<N, H> {
    pub fn new(w1: [[i64; N]; H], b1: [i64; H], w2: [[i64; H]; N], b2: [i64; N]) -> (s: Self)
        ensures
            s == (Self { w1, b1, w2, b2 }),
    {
        Self { w1, b1, w2, b2 }
    }

    /// `H*N + H + N*H + N`.
    pub fn block_len() -> (len: usize)
        requires
            int_mlp_block_len_spec(N as nat, H as nat) <= usize::MAX,
        ensures
            len == int_mlp_block_len_spec(N as nat, H as nat),
    {
        proof {
            assert(N * H <= int_mlp_block_len_spec(N as nat, H as nat)) by (nonlinear_arith);
        }
        H * N + H + N * H + N
    }

    /// Flatten layout: `[W1 row-major | b1 | W2 row-major | b2]`.
    pub open spec fn flatten_spec(&self) -> Seq<i64> {
        flat_matrix(self.w1) + self.b1@ + flat_matrix(self.w2) + self.b2@
    }

    /// Flatten layout: `[W1 row-major | b1 | W2 row-major | b2]`.
    pub fn flatten_i64(&self) -> (out: Vec<i64>)
        ensures
            out@ == self.flatten_spec(),
    {
        let mut out: Vec<i64> = Vec::new();
        push_matrix_row_major(&mut out, &self.w1);
        push_vector(&mut out, &self.b1);
        push_matrix_row_major(&mut out, &self.w2);
        push_vector(&mut out, &self.b2);
        out
    }
}

/// The flattened block has exactly `block_len` entries.
pub proof fn lemma_int_mlp_flatten_len<const N: usize, const H: usize>(p: IntMlpClippedReluStepParams<N, H>)
    ensures
        p.flatten_spec().len() == int_mlp_block_len_spec(N as nat, H as nat),
{
}

impl<const N: usize, const H: usize> MlpClippedReluPublicParams<N, H> {
    pub fn new(params_seq: Vec<IntMlpClippedReluStepParams<N, H>>, clipped_relu_table: ClippedReluLookupTable) -> (s:
        Self)
        ensures
            s.params_seq@ == params_seq@,
            s.clipped_relu_table == clipped_relu_table,
    {
        Self { params_seq, clipped_relu_table }
    }

    /// The number of iterations: one per parameter block.
    pub fn total_iters(&self) -> (n: usize)
        ensures
            n == self.params_seq@.len(),
    {
        self.params_seq.len()
    }
}

/// Hidden pre-activation `b1[r] + sum_c W1[r][c] x[c]`.
pub open spec fn int_hidden_affine<const N: usize, const H: usize>(
    step: IntMlpClippedReluStepParams<N, H>,
    x: Seq<int>,
    r: int,
) -> int {
    dot_from(step.b1[r] as int, ints(step.w1[r]), x, N as int)
}

/// Hidden activations `clipped_relu(W1 x + b1)`.
pub open spec fn int_hidden_act<const N: usize, const H: usize>(
    step: IntMlpClippedReluStepParams<N, H>,
    table: ClippedReluLookupTable,
    x: Seq<int>,
) -> Seq<int> {
    Seq::new(H as nat, |r: int| clipped_relu_spec(int_hidden_affine(step, x, r), table.clip_max as int))
}

/// Next state `W2 clipped_relu(W1 x + b1) + b2`.
pub open spec fn int_mlp_next<const N: usize, const H: usize>(
    step: IntMlpClippedReluStepParams<N, H>,
    table: ClippedReluLookupTable,
    x: Seq<int>,
) -> Seq<int> {
    let act = int_hidden_act(step, table, x);
    Seq::new(N as nat, |r: int| dot_from(step.b2[r] as int, ints(step.w2[r]), act, H as int))
}

/// Both layers compute without `i64` overflow.
pub open spec fn int_mlp_fits<const N: usize, const H: usize>(
    step: IntMlpClippedReluStepParams<N, H>,
    table: ClippedReluLookupTable,
    x: Seq<int>,
) -> bool {
    &&& forall|r: int| 0 <= r < H ==> dot_fits(step.b1[r] as int, ints(#[trigger] step.w1[r]), x, N as int)
    &&& forall|r: int|
        0 <= r < N ==> dot_fits(step.b2[r] as int, ints(#[trigger] step.w2[r]), int_hidden_act(step, table, x), H as int)
}

/// One MLP iteration on integers: `(W1 x + b1, clipped_relu(W1 x + b1), W2 h + b2)`, or `None`
/// when `i64` arithmetic would overflow.
pub fn apply_step_i64<const N: usize, const H: usize>(
    step: &IntMlpClippedReluStepParams<N, H>,
    x_i: &[i64; N],
    table: &ClippedReluLookupTable,
) -> (res: Option<([i64; H], [i64; H], [i64; N])>)
    ensures
        res is Some <==> int_mlp_fits(*step, *table, ints(*x_i)),
        res matches Some((hidden_affine, hidden_act, x_next)) ==> {
            &&& forall|r: int| 0 <= r < H ==> #[trigger] hidden_affine[r] == int_hidden_affine(*step, ints(*x_i), r)
            &&& ints(hidden_act) == int_hidden_act(*step, *table, ints(*x_i))
            &&& ints(x_next) == int_mlp_next(*step, *table, ints(*x_i))
        },
{
    let ghost xs = ints(*x_i);
    let mut hidden_affine = [0i64; H];
    let mut hidden_act = [0i64; H];
    let mut r: usize = 0;
    while r < H
        invariant
            r <= H,
            xs == ints(*x_i),
            forall|k: int| 0 <= k < r ==> dot_fits(step.b1[k] as int, ints(#[trigger] step.w1[k]), xs, N as int),
            forall|k: int| 0 <= k < r ==> #[trigger] hidden_affine[k] == int_hidden_affine(*step, xs, k),
            forall|k: int|
                0 <= k < r ==> #[trigger] hidden_act[k] == clipped_relu_spec(
                    int_hidden_affine(*step, xs, k),
                    table.clip_max as int,
                ),
        decreases H - r,
    {
        let acc = match checked_dot(step.b1[r], &step.w1[r], x_i) {
            Some(v) => v,
            None => {
                return None;
            },
        };
        hidden_affine[r] = acc;
        hidden_act[r] = table.clipped_relu(acc);
        r = r + 1;
    }
    let ghost act = int_hidden_act(*step, *table, xs);
    assert(ints(hidden_act) =~= act);
    let mut x_next = [0i64; N];
    let mut r: usize = 0;
    while r < N
        invariant
            r <= N,
            xs == ints(*x_i),
            act == ints(hidden_act),
            act == int_hidden_act(*step, *table, xs),
            forall|k: int| 0 <= k < H ==> dot_fits(step.b1[k] as int, ints(#[trigger] step.w1[k]), xs, N as int),
            forall|k: int| 0 <= k < r ==> dot_fits(step.b2[k] as int, ints(#[trigger] step.w2[k]), act, H as int),
            forall|k: int| 0 <= k < r ==> #[trigger] x_next[k] == dot_from(step.b2[k] as int, ints(step.w2[k]), act, H as int),
        decreases N - r,
    {
        let acc = match checked_dot(step.b2[r], &step.w2[r], &hidden_act) {
            Some(v) => v,
            None => {
                return None;
            },
        };
        x_next[r] = acc;
        r = r + 1;
    }
    assert(ints(x_next) =~= int_mlp_next(*step, *table, xs));
    Some((hidden_affine, hidden_act, x_next))
}

/// One iteration is admitted: no overflow, and every hidden pre-activation lies in the table's
/// domain.
pub open spec fn int_mlp_step_ok<const N: usize, const H: usize>(
    step: IntMlpClippedReluStepParams<N, H>,
    table: ClippedReluLookupTable,
    x: Seq<int>,
) -> bool {
    &&& int_mlp_fits(step, table, x)
    &&& forall|r: int| 0 <= r < H ==> table.contains_spec(#[trigger] int_hidden_affine(step, x, r))
}

/// Integer witness of one MLP iteration.
#[derive(Clone, Copy, Debug)]
pub struct MlpClippedReluIteration<const N: usize, const H: usize> {
    pub x_i_int: [i64; N],
    pub hidden_affine_int: [i64; H],
    pub hidden_act_int: [i64; H],
    pub x_i_plus_1_int: [i64; N],
}

/// `it` is the witness of the iteration from `x` with `step`.
pub open spec fn int_mlp_iteration_matches<const N: usize, const H: usize>(
    it: MlpClippedReluIteration<N, H>,
    step: IntMlpClippedReluStepParams<N, H>,
    table: ClippedReluLookupTable,
    x: Seq<int>,
) -> bool {
    &&& ints(it.x_i_int) == x
    &&& forall|r: int| 0 <= r < H ==> #[trigger] it.hidden_affine_int[r] == int_hidden_affine(step, x, r)
    &&& ints(it.hidden_act_int) == int_hidden_act(step, table, x)
    &&& ints(it.x_i_plus_1_int) == int_mlp_next(step, table, x)
}

/// State after the first `t` iterations from `x0`.
pub open spec fn int_mlp_state<const N: usize, const H: usize>(
    params: Seq<IntMlpClippedReluStepParams<N, H>>,
    table: ClippedReluLookupTable,
    x0: Seq<int>,
    t: int,
) -> Seq<int>
    decreases t,
{
    if t <= 0 {
        x0
    } else {
        int_mlp_next(params[t - 1], table, int_mlp_state(params, table, x0, t - 1))
    }
}

/// Concatenation of the flattened parameter blocks, in order.
pub open spec fn int_mlp_params_flat<const N: usize, const H: usize>(params: Seq<IntMlpClippedReluStepParams<N, H>>) -> Seq<
    i64,
>
    decreases params.len(),
{
    if params.len() == 0 {
        Seq::empty()
    } else {
        int_mlp_params_flat(params.drop_last()) + params.last().flatten_spec()
    }
}

/// Generates `z0 = [x0 | params_0 | ... | params_{T-1}]` and the integer trace of
/// `x_{t+1} = W2_t clipped_relu(W1_t x_t + b1_t) + b2_t`; `Err` exactly when some iteration
/// overflows `i64` or has a hidden pre-activation outside the table's domain.
pub fn generate_mlp_clipped_relu_trace<const N: usize, const H: usize>(
    public_params: &MlpClippedReluPublicParams<N, H>,
    x0: [i64; N],
) -> (res: Result<(Vec<i64>, Vec<MlpClippedReluIteration<N, H>>), TraceError>)
    ensures
        res is Ok <==> forall|t: int|
            0 <= t < public_params.params_seq@.len() ==> int_mlp_step_ok(
                #[trigger] public_params.params_seq@[t],
                public_params.clipped_relu_table,
                int_mlp_state(public_params.params_seq@, public_params.clipped_relu_table, ints(x0), t),
            ),
        res matches Ok((z0, seq)) ==> {
            &&& z0@ == x0@ + int_mlp_params_flat(public_params.params_seq@)
            &&& seq@.len() == public_params.params_seq@.len()
            &&& forall|t: int|
                0 <= t < seq@.len() ==> int_mlp_iteration_matches(
                    #[trigger] seq@[t],
                    public_params.params_seq@[t],
                    public_params.clipped_relu_table,
                    int_mlp_state(public_params.params_seq@, public_params.clipped_relu_table, ints(x0), t),
                )
        },
{
    let ghost params = public_params.params_seq@;
    let table = public_params.clipped_relu_table;
    let mut z0: Vec<i64> = Vec::new();
    push_vector(&mut z0, &x0);
    let mut i: usize = 0;
    while i < public_params.params_seq.len()
        invariant
            i <= params.len(),
            params == public_params.params_seq@,
            z0@ == x0@ + int_mlp_params_flat(params.take(i as int)),
        decreases params.len() - i,
    {
        let mut block = public_params.params_seq[i].flatten_i64();
        proof {
            assert(params.take(i + 1).drop_last() =~= params.take(i as int));
        }
        z0.append(&mut block);
        proof {
            assert(z0@ =~= x0@ + int_mlp_params_flat(params.take(i + 1)));
        }
        i = i + 1;
    }
    assert(params.take(params.len() as int) =~= params);
    let mut x_i = x0;
    let mut seq: Vec<MlpClippedReluIteration<N, H>> = Vec::new();
    let mut t: usize = 0;
    while t < public_params.params_seq.len()
        invariant
            t <= params.len(),
            params == public_params.params_seq@,
            table == public_params.clipped_relu_table,
            z0@ == x0@ + int_mlp_params_flat(params),
            seq@.len() == t,
            ints(x_i) == int_mlp_state(params, table, ints(x0), t as int),
            forall|k: int|
                0 <= k < t ==> int_mlp_step_ok(#[trigger] params[k], table, int_mlp_state(params, table, ints(x0), k)),
            forall|k: int|
                0 <= k < t ==> int_mlp_iteration_matches(
                    #[trigger] seq@[k],
                    params[k],
                    table,
                    int_mlp_state(params, table, ints(x0), k),
                ),
        decreases params.len() - t,
    {
        let step = public_params.params_seq[t];
        let ghost xs = ints(x_i);
        let (hidden_affine, hidden_act, x_next) = match apply_step_i64(&step, &x_i, &table) {
            Some(v) => v,
            None => {
                return Err(TraceError::OutOfRange);
            },
        };
        let mut r: usize = 0;
        while r < H
            invariant
                r <= H,
                t < params.len(),
                params == public_params.params_seq@,
                table == public_params.clipped_relu_table,
                step == params[t as int],
                xs == int_mlp_state(params, table, ints(x0), t as int),
                forall|k: int| 0 <= k < H ==> #[trigger] hidden_affine[k] == int_hidden_affine(step, xs, k),
                forall|k: int| 0 <= k < r ==> table.contains_spec(#[trigger] int_hidden_affine(step, xs, k)),
            decreases H - r,
        {
            if !table.contains(hidden_affine[r]) {
                assert(!table.contains_spec(int_hidden_affine(step, xs, r as int)));
                return Err(TraceError::OutOfRange);
            }
            r = r + 1;
        }
        seq.push(MlpClippedReluIteration { x_i_int: x_i, hidden_affine_int: hidden_affine, hidden_act_int: hidden_act, x_i_plus_1_int: x_next });
        x_i = x_next;
        t = t + 1;
    }
    Ok((z0, seq))
}

} // verus!

verus! {

/// An integer MLP trace chains: iteration `0` starts at `x0` and iteration `t + 1` starts at the
/// state iteration `t` ends in.
pub proof fn lemma_int_mlp_trace_chains<const N: usize, const H: usize>(
    params: Seq<IntMlpClippedReluStepParams<N, H>>,
    table: ClippedReluLookupTable,
    x0: Seq<int>,
    seq: Seq<MlpClippedReluIteration<N, H>>,
    t: int,
)
    requires
        seq.len() == params.len(),
        forall|k: int|
            0 <= k < seq.len() ==> int_mlp_iteration_matches(
                #[trigger] seq[k],
                params[k],
                table,
                int_mlp_state(params, table, x0, k),
            ),
        0 <= t,
        t + 1 < seq.len(),
    ensures
        ints(seq[0].x_i_int) == x0,
        ints(seq[t + 1].x_i_int) == ints(seq[t].x_i_plus_1_int),
{
    assert(int_mlp_iteration_matches(seq[0], params[0], table, int_mlp_state(params, table, x0, 0)));
    assert(int_mlp_iteration_matches(seq[t], params[t], table, int_mlp_state(params, table, x0, t)));
    assert(int_mlp_iteration_matches(seq[t + 1], params[t + 1], table, int_mlp_state(params, table, x0, t + 1)));
}

} // verus!

verus! {

/// The flattened block is `[W1 row-major | b1 | W2 row-major | b2]`, entry by entry: `W1[r][c]`
/// at `r*N + c`, `b1[r]` at `H*N + r`, `W2[r][c]` at `H*N + H + r*H + c`, `b2[r]` at
/// `H*N + H + N*H + r`.
pub proof fn lemma_int_mlp_flatten_entries<const N: usize, const H: usize>(
    p: IntMlpClippedReluStepParams<N, H>,
    r: int,
    c: int,
)
    ensures
        p.flatten_spec().len() == H * N + H + N * H + N,
        0 <= r < H && 0 <= c < N ==> p.flatten_spec()[r * N + c] == p.w1[r][c],
        0 <= r < H ==> p.flatten_spec()[H * N + r] == p.b1[r],
        0 <= r < N && 0 <= c < H ==> p.flatten_spec()[H * N + H + r * H + c] == p.w2[r][c],
        0 <= r < N ==> p.flatten_spec()[H * N + H + N * H + r] == p.b2[r],
{
    assert(N * H == H * N) by (nonlinear_arith);
    assert(flat_matrix(p.w1).len() == H * N);
    assert(flat_matrix(p.w2).len() == N * H);
    if 0 <= r < H && 0 <= c < N {
        crate::matrix::lemma_flat_matrix_index(p.w1, r, c);
    }
    if 0 <= r < N && 0 <= c < H {
        crate::matrix::lemma_flat_matrix_index(p.w2, r, c);
    }
}

} // verus!

verus! {

/// An integer MLP iteration: `hidden_affine[r] = b1[r] + W1[r] . x`, `hidden_act[r]` is the
/// clipped ReLU of `hidden_affine[r]`, and `x'[j] = b2[j] + W2[j] . hidden_act`.
pub proof fn lemma_int_mlp_iteration_arithmetic<const N: usize, const H: usize>(
    it: MlpClippedReluIteration<N, H>,
    step: IntMlpClippedReluStepParams<N, H>,
    table: ClippedReluLookupTable,
    x: Seq<int>,
    r: int,
    j: int,
)
    requires
        int_mlp_iteration_matches(it, step, table, x),
    ensures
        ints(it.x_i_int) == x,
        0 <= r < H ==> it.hidden_affine_int[r] == dot_from(step.b1[r] as int, ints(step.w1[r]), x, N as int),
        0 <= r < H ==> it.hidden_act_int[r] == clipped_relu_spec(it.hidden_affine_int[r] as int, table.clip_max as int),
        0 <= j < N ==> it.x_i_plus_1_int[j] == dot_from(step.b2[j] as int, ints(step.w2[j]), ints(it.hidden_act_int), H as int),
{
    if 0 <= r < H {
        assert(ints(it.hidden_act_int)[r] == int_hidden_act(step, table, x)[r]);
    }
    if 0 <= j < N {
        assert(ints(it.x_i_plus_1_int)[j] == int_mlp_next(step, table, x)[j]);
    }
}

} // verus!

verus! {

/// `z0 = [x0 | params_0 | ... | params_{T-1}]` holds `x0` first and parameter block `i` at
/// `N + i*B` with `B = (H * N + H + N * H + N)` entries, for `N + T*B` entries in all.
pub proof fn lemma_int_mlp_z0_blocks<const N: usize, const H: usize>(params: Seq<IntMlpClippedReluStepParams<N, H>>, x0: [i64; N], i: int)
    ensures
        ({
            let z0 = x0@ + int_mlp_params_flat(params);
            let b = (H * N + H + N * H + N) as int;
            &&& z0.len() == N + params.len() * b
            &&& z0.subrange(0, N as int) == x0@
            &&& 0 <= i < params.len() ==> z0.subrange(N + i * b, N + i * b + b) == params[i].flatten_spec()
        }),
    decreases params.len(),
{
    let b = (H * N + H + N * H + N) as int;
    assert(N * H == H * N) by (nonlinear_arith);
    let z0 = x0@ + int_mlp_params_flat(params);
    assert(z0.subrange(0, N as int) =~= x0@);
    if params.len() > 0 {
        let init = params.drop_last();
        lemma_int_mlp_z0_blocks(init, x0, i);
        lemma_int_mlp_flatten_entries(params.last(), 0, 0);
        assert(init.len() * b + b == params.len() * b) by (nonlinear_arith)
            requires
                init.len() + 1 == params.len(),
        ;
        assert(int_mlp_params_flat(params) == int_mlp_params_flat(init) + params.last().flatten_spec());
        if 0 <= i < params.len() {
            assert(0 <= i * b && i * b + b <= params.len() * b) by (nonlinear_arith)
                requires
                    0 <= i < params.len(),
                    0 <= b,
            ;
            if i < init.len() {
                assert(i * b + b <= init.len() * b) by (nonlinear_arith)
                    requires
                        0 <= i < init.len(),
                        0 <= b,
                ;
                assert(z0.subrange(N + i * b, N + i * b + b) =~= (x0@ + int_mlp_params_flat(init)).subrange(N + i * b, N + i * b + b));
            } else {
                assert(z0.subrange(N + i * b, N + i * b + b) =~= params.last().flatten_spec());
            }
        }
    }
}

} // verus!
