use vstd::prelude::*;

use crate::activations::{relu_spec, ClippedReluLookupTable, ReluLookupTable};
use crate::error::TraceError;
use crate::fixed_point::{checked_dot, dot_fits, dot_from, ints};

verus! {

/// Integer parameters of the recurrence `x' = relu(A x + b)` with a ReLU lookup table.
#[derive(Clone, Copy, Debug)]
pub struct IntAffineReluLookupParams<const N: usize> {
    pub a: [[i64; N]; N],
    pub b: [i64; N],
    pub relu_table: ReluLookupTable,
}

/// Integer parameters of the recurrence `x' = clipped_relu(A x + b)` with a clipped-ReLU lookup
/// table.
#[derive(Clone, Copy, Debug)]
pub struct IntAffineClippedReluLookupParams<const N: usize> {
    pub a: [[i64; N]; N],
    pub b: [i64; N],
    pub clipped_relu_table: ClippedReluLookupTable,
}

impl<const N: usize> IntAffineReluLookupParams<N> {
    pub fn new(a: [[i64; N]; N], b: [i64; N], relu_table: ReluLookupTable) -> (s: Self)
        ensures
            s == (Self { a, b, relu_table }),
    {
        Self { a, b, relu_table }
    }
}

impl<const N: usize> IntAffineClippedReluLookupParams<N> {
    pub fn new(a: [[i64; N]; N], b: [i64; N], clipped_relu_table: ClippedReluLookupTable) -> (s: Self)
        ensures
            s == (Self { a, b, clipped_relu_table }),
    {
        Self { a, b, clipped_relu_table }
    }
}

/// Affine output `b[r] + sum_c A[r][c] x[c]`.
pub open spec fn affine_out_spec<const N: usize>(a: [[i64; N]; N], b: [i64; N], x: Seq<int>, r: int) -> int {
    dot_from(b[r] as int, ints(a[r]), x, N as int)
}

/// Next state `relu(A x + b)`.
pub open spec fn affine_relu_next<const N: usize>(params: IntAffineReluLookupParams<N>, x: Seq<int>) -> Seq<int> {
    Seq::new(N as nat, |r: int| relu_spec(affine_out_spec(params.a, params.b, x, r)))
}

/// One iteration is admitted: every row computes without `i64` overflow and lies in the ReLU
/// table's domain.
pub open spec fn affine_relu_step_ok<const N: usize>(params: IntAffineReluLookupParams<N>, x: Seq<int>) -> bool {
    forall|r: int|
        0 <= r < N ==> dot_fits(params.b[r] as int, ints(#[trigger] params.a[r]), x, N as int)
            && params.relu_table.contains_spec(affine_out_spec(params.a, params.b, x, r))
}

/// State after `t` iterations from `x0`.
pub open spec fn affine_relu_state<const N: usize>(params: IntAffineReluLookupParams<N>, x0: Seq<int>, t: int) -> Seq<
    int,
>
    decreases t,
{
    if t <= 0 {
        x0
    } else {
        affine_relu_next(params, affine_relu_state(params, x0, t - 1))
    }
}

/// Integer witness of one iteration.
#[derive(Clone, Copy, Debug)]
pub struct AffineReluLookupIteration<const N: usize> {
    pub x_i_int: [i64; N],
    pub affine_out_int: [i64; N],
    pub x_i_plus_1_int: [i64; N],
}

/// `it` is the witness of the iteration from `x`.
pub open spec fn affine_relu_iteration_matches<const N: usize>(
    it: AffineReluLookupIteration<N>,
    params: IntAffineReluLookupParams<N>,
    x: Seq<int>,
) -> bool {
    &&& ints(it.x_i_int) == x
    &&& forall|r: int| 0 <= r < N ==> #[trigger] it.affine_out_int[r] == affine_out_spec(params.a, params.b, x, r)
    &&& ints(it.x_i_plus_1_int) == affine_relu_next(params, x)
}

/// One iteration `x' = relu(A x + b)` with its witness; `Err` exactly when it is not admitted.
fn affine_relu_iteration<const N: usize>(params: &IntAffineReluLookupParams<N>, x: &[i64; N]) -> (res: Result<
    AffineReluLookupIteration<N>,
    TraceError,
>)
    ensures
        res is Ok <==> affine_relu_step_ok(*params, ints(*x)),
        res matches Ok(it) ==> affine_relu_iteration_matches(it, *params, ints(*x)),
{
    let ghost xs = ints(*x);
    let mut out = [0i64; N];
    let mut next = [0i64; N];
    let mut r: usize = 0;
    while r < N
        invariant
            r <= N,
            xs == ints(*x),
            forall|k: int|
                0 <= k < r ==> dot_fits(params.b[k] as int, ints(#[trigger] params.a[k]), xs, N as int)
                    && params.relu_table.contains_spec(affine_out_spec(params.a, params.b, xs, k)),
            forall|k: int| 0 <= k < r ==> #[trigger] out[k] == affine_out_spec(params.a, params.b, xs, k),
            forall|k: int| 0 <= k < r ==> #[trigger] next[k] == relu_spec(affine_out_spec(params.a, params.b, xs, k)),
        decreases N - r,
    {
        let acc = match checked_dot(params.b[r], &params.a[r], x) {
            Some(v) => v,
            None => {
                return Err(TraceError::OutOfRange);
            },
        };
        if !params.relu_table.contains(acc) {
            return Err(TraceError::OutOfRange);
        }
        out[r] = acc;
        next[r] = params.relu_table.relu(acc);
        r = r + 1;
    }
    assert(ints(next) =~= affine_relu_next(*params, xs));
    Ok(AffineReluLookupIteration { x_i_int: *x, affine_out_int: out, x_i_plus_1_int: next })
}

/// Generates `z0 = x0` and the integer trace of `num_iters` iterations of
/// `x_{t+1} = relu(A x_t + b)`; `Err` exactly when some iteration overflows `i64` or has an
/// affine output outside the ReLU table's domain.
pub fn generate_affine_relu_lookup_trace<const N: usize>(
    params: &IntAffineReluLookupParams<N>,
    x0: [i64; N],
    num_iters: usize,
) -> (res: Result<(Vec<i64>, Vec<AffineReluLookupIteration<N>>), TraceError>)
    ensures
        res is Ok <==> forall|t: int|
            0 <= t < num_iters ==> #[trigger] affine_relu_step_ok(*params, affine_relu_state(*params, ints(x0), t)),
        res matches Ok((z0, seq)) ==> {
            &&& z0@ == x0@
            &&& seq@.len() == num_iters
            &&& forall|t: int|
                0 <= t < num_iters ==> affine_relu_iteration_matches(
                    #[trigger] seq@[t],
                    *params,
                    affine_relu_state(*params, ints(x0), t),
                )
        },
{
    let mut x_i = x0;
    let mut seq: Vec<AffineReluLookupIteration<N>> = Vec::new();
    let mut t: usize = 0;
    while t < num_iters
        invariant
            t <= num_iters,
            seq@.len() == t,
            ints(x_i) == affine_relu_state(*params, ints(x0), t as int),
            forall|k: int| 0 <= k < t ==> #[trigger] affine_relu_step_ok(*params, affine_relu_state(*params, ints(x0), k)),
            forall|k: int|
                0 <= k < t ==> affine_relu_iteration_matches(#[trigger] seq@[k], *params, affine_relu_state(*params, ints(x0), k)),
        decreases num_iters - t,
    {
        match affine_relu_iteration(params, &x_i) {
            Err(e) => {
                return Err(e);
            },
            Ok(it) => {
                x_i = it.x_i_plus_1_int;
                seq.push(it);
            },
        }
        t = t + 1;
    }
    let mut z0: Vec<i64> = Vec::new();
    crate::matrix::push_vector(&mut z0, &x0);
    assert(z0@ =~= x0@);
    Ok((z0, seq))
}

} // verus!

verus! {

/// An affine-ReLU trace chains: iteration `0` starts at `x0` and iteration `t + 1` starts at the
/// state iteration `t` ends in.
pub proof fn lemma_affine_relu_trace_chains<const N: usize>(
    params: IntAffineReluLookupParams<N>,
    x0: Seq<int>,
    seq: Seq<AffineReluLookupIteration<N>>,
    t: int,
)
    requires
        forall|k: int|
            0 <= k < seq.len() ==> affine_relu_iteration_matches(#[trigger] seq[k], params, affine_relu_state(params, x0, k)),
        0 <= t,
        t + 1 < seq.len(),
    ensures
        ints(seq[0].x_i_int) == x0,
        ints(seq[t + 1].x_i_int) == ints(seq[t].x_i_plus_1_int),
{
    assert(affine_relu_iteration_matches(seq[0], params, affine_relu_state(params, x0, 0)));
    assert(affine_relu_iteration_matches(seq[t], params, affine_relu_state(params, x0, t)));
    assert(affine_relu_iteration_matches(seq[t + 1], params, affine_relu_state(params, x0, t + 1)));
}

} // verus!

verus! {

/// An affine-ReLU iteration: `affine_out[r] = b[r] + A[r] . x` and `x'[r]` is the ReLU of
/// `affine_out[r]`.
pub proof fn lemma_affine_relu_iteration_arithmetic<const N: usize>(
    it: AffineReluLookupIteration<N>,
    params: IntAffineReluLookupParams<N>,
    x: Seq<int>,
    r: int,
)
    requires
        affine_relu_iteration_matches(it, params, x),
        0 <= r < N,
    ensures
        ints(it.x_i_int) == x,
        it.affine_out_int[r] == dot_from(params.b[r] as int, ints(params.a[r]), x, N as int),
        it.x_i_plus_1_int[r] == relu_spec(it.affine_out_int[r] as int),
{
    assert(ints(it.x_i_plus_1_int)[r] == affine_relu_next(params, x)[r]);
}

} // verus!
