use vstd::prelude::*;

use crate::affine::{affine_fixed_point_fits, affine_fixed_point_row, affine_raw};
use crate::error::TraceError;
use crate::fixed_point::{dot_fits, dot_from, dot_term, fits_i64, ints, lemma_dot_segments_agree, lemma_dot_zero_weights, FixedPointConfig};
use crate::matrix::push_vector;
use crate::models::denoise_time_embedding::{
    lemma_table_flat_rows, lemma_te_params_flat_blocks,
    generate_fixed_point_denoise_time_embedding_trace, push_table, push_te_params, table_flat,
    te_epsilon, te_iteration_matches, te_next, te_params_flat, te_state, te_step_ok, te_step_params_padded,
    te_trace_ok, update_quotients_ok,
    FixedDenoiseTimeEmbeddingIteration, FixedDenoiseTimeEmbeddingPublicParams,
    FixedDenoiseTimeEmbeddingStepParams, padded_w1_entry,
};
use crate::models::denoise_update::{denoise_update_fits, denoise_update_spec, DenoiseUpdateMode};
use crate::models::two_layer::{two_layer_hidden_act, two_layer_ok};
use crate::padding::{padded_matrix_entry, padded_vector};
use crate::public_state::layout::PublicStateLayout;
use crate::padding::PaddingError;

verus! {

/// Real dimensions of a denoise model embedded in a maximum-shape circuit.
#[derive(Clone, Copy, Debug, PartialEq, Eq)]
pub struct PaddedDenoiseShape {
    pub n_real: usize,
    pub te_real: usize,
    pub in_real: usize,
    pub h_real: usize,
}

impl PaddedDenoiseShape {
    /// Real dimensions that fit the maximum shape, with `in = n + te` in both.
    pub fn new(
        n_real: usize,
        te_real: usize,
        in_real: usize,
        h_real: usize,
        n_max: usize,
        te_max: usize,
        in_max: usize,
        h_max: usize,
    ) -> (s: Self)
        requires
            in_real == n_real + te_real,
            in_max == n_max + te_max,
            n_real <= n_max,
            te_real <= te_max,
            in_real <= in_max,
            h_real <= h_max,
        ensures
            s == (Self { n_real, te_real, in_real, h_real }),
    {
        Self { n_real, te_real, in_real, h_real }
    }
}

/// Why a padded trace could not be generated.
#[derive(Clone, Copy, Debug, PartialEq, Eq)]
pub enum PaddedTraceError {
    /// The underlying trace left the admitted ranges.
    Trace(TraceError),
    /// The expected output has a nonzero entry past the real dimension.
    Padding(PaddingError),
}

/// `z0 = [x0 | y | t0 = 0 | params_0 | ... | params_{T-1} | E_0 | ... | E_{T-1}]`.
pub open spec fn padded_output_z0<const N_MAX: usize, const TE_MAX: usize, const IN_MAX: usize, const H_MAX: usize>(
    public_params: FixedDenoiseTimeEmbeddingPublicParams<N_MAX, TE_MAX, IN_MAX, H_MAX>,
    x0: [i64; N_MAX],
    expected_output: [i64; N_MAX],
) -> Seq<i64> {
    (x0@ + expected_output@).push(0) + te_params_flat(public_params.params_seq@) + table_flat(
        public_params.time_table@,
    )
}

/// The public state with the expected output `y` carried next to `x`:
/// `[x0 | y | 0 | params... | table...]`. The padding entries of `y` past `n_real` must be zero;
/// otherwise the first nonzero one is reported.
pub fn build_z0_with_public_output<const N_MAX: usize, const TE_MAX: usize, const IN_MAX: usize, const H_MAX: usize>(
    public_params: &FixedDenoiseTimeEmbeddingPublicParams<N_MAX, TE_MAX, IN_MAX, H_MAX>,
    x0: [i64; N_MAX],
    expected_output: [i64; N_MAX],
    shape: PaddedDenoiseShape,
) -> (res: Result<Vec<i64>, PaddingError>)
    ensures
        res is Ok <==> forall|j: int| shape.n_real <= j < N_MAX ==> #[trigger] expected_output[j] == 0,
        res matches Ok(z0) ==> z0@ == padded_output_z0(*public_params, x0, expected_output),
        res matches Err(e) ==> e matches PaddingError::NonZeroVectorEntry { index, value } && {
            &&& shape.n_real <= index < N_MAX
            &&& value == expected_output[index as int]
            &&& value != 0
            &&& forall|j: int| shape.n_real <= j < index ==> expected_output[j] == 0
        },
{
    let mut j: usize = shape.n_real;
    while j < N_MAX
        invariant
            shape.n_real <= j,
            forall|k: int| shape.n_real <= k < j ==> #[trigger] expected_output[k] == 0,
        decreases N_MAX - j,
    {
        if expected_output[j] != 0 {
            return Err(PaddingError::NonZeroVectorEntry { index: j, value: expected_output[j] });
        }
        j = j + 1;
    }
    let mut z0: Vec<i64> = Vec::new();
    push_vector(&mut z0, &x0);
    push_vector(&mut z0, &expected_output);
    z0.push(0);
    push_te_params(&mut z0, &public_params.params_seq);
    push_table(&mut z0, &public_params.time_table);
    Ok(z0)
}

/// The padded time-embedding trace with a given expected public output placed in `z0`.
pub fn generate_padded_denoise_trace_with_expected_output<const N_MAX: usize, const TE_MAX: usize, const IN_MAX: usize, const H_MAX: usize>(
    public_params: &FixedDenoiseTimeEmbeddingPublicParams<N_MAX, TE_MAX, IN_MAX, H_MAX>,
    x0: [i64; N_MAX],
    expected_output: [i64; N_MAX],
    shape: PaddedDenoiseShape,
) -> (res: Result<(Vec<i64>, Vec<FixedDenoiseTimeEmbeddingIteration<N_MAX, TE_MAX, IN_MAX, H_MAX>>), PaddedTraceError>)
    requires
        IN_MAX == N_MAX + TE_MAX,
        public_params.config.scale > 0,
        public_params.params_seq@.len() <= public_params.time_table@.len(),
    ensures
        res matches Err(PaddedTraceError::Trace(e)) <==> !te_trace_ok(
            public_params.params_seq@,
            public_params.time_table@,
            public_params.config,
            public_params.update_mode,
            ints(x0),
        ),
        res is Ok <==> te_trace_ok(
            public_params.params_seq@,
            public_params.time_table@,
            public_params.config,
            public_params.update_mode,
            ints(x0),
        ) && forall|j: int| shape.n_real <= j < N_MAX ==> #[trigger] expected_output[j] == 0,
        res matches Ok((z0, seq)) ==> {
            &&& z0@ == padded_output_z0(*public_params, x0, expected_output)
            &&& seq@.len() == public_params.params_seq@.len()
            &&& forall|t: int|
                0 <= t < seq@.len() ==> te_iteration_matches(
                    #[trigger] seq@[t],
                    public_params.params_seq@[t],
                    public_params.config,
                    public_params.update_mode,
                    te_state(
                        public_params.params_seq@,
                        public_params.time_table@,
                        public_params.config,
                        public_params.update_mode,
                        ints(x0),
                        t,
                    ),
                    ints(public_params.time_table@[t]),
                    t as i64,
                )
        },
{
    let (_trace_z0, trace) = match generate_fixed_point_denoise_time_embedding_trace(public_params, x0) {
        Ok(v) => v,
        Err(e) => {
            return Err(PaddedTraceError::Trace(e));
        },
    };
    match build_z0_with_public_output(public_params, x0, expected_output, shape) {
        Ok(z0) => Ok((z0, trace)),
        Err(e) => Err(PaddedTraceError::Padding(e)),
    }
}

/// The padded time-embedding trace with the computed final state (`x0` when there are no
/// iterations) as the expected public output.
pub fn generate_padded_denoise_trace_with_computed_output<const N_MAX: usize, const TE_MAX: usize, const IN_MAX: usize, const H_MAX: usize>(
    public_params: &FixedDenoiseTimeEmbeddingPublicParams<N_MAX, TE_MAX, IN_MAX, H_MAX>,
    x0: [i64; N_MAX],
    shape: PaddedDenoiseShape,
) -> (res: Result<
    (Vec<i64>, Vec<FixedDenoiseTimeEmbeddingIteration<N_MAX, TE_MAX, IN_MAX, H_MAX>>, [i64; N_MAX]),
    PaddedTraceError,
>)
    requires
        IN_MAX == N_MAX + TE_MAX,
        public_params.config.scale > 0,
        public_params.params_seq@.len() <= public_params.time_table@.len(),
    ensures
        res matches Err(PaddedTraceError::Trace(e)) <==> !te_trace_ok(
            public_params.params_seq@,
            public_params.time_table@,
            public_params.config,
            public_params.update_mode,
            ints(x0),
        ),
        te_trace_ok(
            public_params.params_seq@,
            public_params.time_table@,
            public_params.config,
            public_params.update_mode,
            ints(x0),
        ) ==> {
            let y = te_state(
                public_params.params_seq@,
                public_params.time_table@,
                public_params.config,
                public_params.update_mode,
                ints(x0),
                public_params.params_seq@.len() as int,
            );
            &&& res is Ok <==> forall|j: int| shape.n_real <= j < N_MAX ==> #[trigger] y[j] == 0
            &&& res matches Ok((z0, seq, expected_output)) ==> {
                &&& ints(expected_output) == y
                &&& z0@ == padded_output_z0(*public_params, x0, expected_output)
                &&& seq@.len() == public_params.params_seq@.len()
                &&& forall|t: int|
                    0 <= t < seq@.len() ==> te_iteration_matches(
                        #[trigger] seq@[t],
                        public_params.params_seq@[t],
                        public_params.config,
                        public_params.update_mode,
                        te_state(
                            public_params.params_seq@,
                            public_params.time_table@,
                            public_params.config,
                            public_params.update_mode,
                            ints(x0),
                            t,
                        ),
                        ints(public_params.time_table@[t]),
                        t as i64,
                    )
            }
        },
{
    let ghost params = public_params.params_seq@;
    let ghost table = public_params.time_table@;
    let (_trace_z0, trace) = match generate_fixed_point_denoise_time_embedding_trace(public_params, x0) {
        Ok(v) => v,
        Err(e) => {
            return Err(PaddedTraceError::Trace(e));
        },
    };
    let expected_output = if trace.len() == 0 {
        x0
    } else {
        let last = trace.len() - 1;
        proof {
            let xs = te_state(params, table, public_params.config, public_params.update_mode, ints(x0), last as int);
            assert(te_iteration_matches(
                trace@[last as int],
                params[last as int],
                public_params.config,
                public_params.update_mode,
                xs,
                ints(table[last as int]),
                last as i64,
            ));
        }
        trace[last].x_i_plus_1_int
    };
    let ghost y = te_state(
        params,
        table,
        public_params.config,
        public_params.update_mode,
        ints(x0),
        params.len() as int,
    );
    assert(ints(expected_output) == y);
    proof {
        assert forall|j: int| shape.n_real <= j < N_MAX implies (#[trigger] expected_output[j] == 0) == (
        y[j] == 0) by {
            assert(ints(expected_output)[j] == y[j]);
        }
    }
    match build_z0_with_public_output(public_params, x0, expected_output, shape) {
        Ok(z0) => Ok((z0, trace, expected_output)),
        Err(e) => {
            proof {
                if let PaddingError::NonZeroVectorEntry { index, value } = e {
                    assert(ints(expected_output)[index as int] == y[index as int]);
                }
            }
            Err(PaddedTraceError::Padding(e))
        },
    }
}

} // verus!

verus! {

/// `s` followed by zeros up to length `max`, over mathematical integers.
pub open spec fn pad_ints(s: Seq<int>, max: nat) -> Seq<int> {
    Seq::new(max, |i: int| if i < s.len() { s[i] } else { 0 })
}

/// The padded first layer computes, on `[x padded || e padded]`, the same raw sums as the real
/// first layer on `[x || e]` in the real rows, and zero in the padding rows.
proof fn lemma_padded_hidden_raw<
    const N_REAL: usize,
    const TE_REAL: usize,
    const IN_REAL: usize,
    const H_REAL: usize,
    const N_MAX: usize,
    const TE_MAX: usize,
    const IN_MAX: usize,
    const H_MAX: usize,
>(
    padded: FixedDenoiseTimeEmbeddingStepParams<N_MAX, TE_MAX, IN_MAX, H_MAX>,
    unpadded: FixedDenoiseTimeEmbeddingStepParams<N_REAL, TE_REAL, IN_REAL, H_REAL>,
    x: Seq<int>,
    e: Seq<int>,
    r: int,
)
    requires
        IN_REAL == N_REAL + TE_REAL,
        IN_MAX == N_MAX + TE_MAX,
        N_REAL <= N_MAX,
        TE_REAL <= TE_MAX,
        H_REAL <= H_MAX,
        te_step_params_padded(padded, unpadded),
        x.len() == N_REAL,
        e.len() == TE_REAL,
        0 <= r < H_MAX,
    ensures
        affine_raw(padded.w1, pad_ints(x, N_MAX as nat) + pad_ints(e, TE_MAX as nat), r) == if r < H_REAL {
            affine_raw(unpadded.w1, x + e, r)
        } else {
            0
        },
{
    let big = pad_ints(x, N_MAX as nat) + pad_ints(e, TE_MAX as nat);
    let u = x + e;
    let wp = ints(padded.w1[r]);
    let nr = N_REAL as int;
    let ter = TE_REAL as int;
    let nm = N_MAX as int;
    assert forall|c: int| 0 <= c < IN_MAX implies #[trigger] wp[c] == padded_w1_entry(
        unpadded.w1,
        nr,
        ter,
        nm,
        r,
        c,
    ) by {
        assert(padded.w1[r][c] == padded_w1_entry(unpadded.w1, nr, ter, nm, r, c));
    }
    if r < H_REAL {
        let wu = ints(unpadded.w1[r]);
        assert forall|c: int| 0 <= c < 0 + nr implies #[trigger] dot_term(wp, big, c) == dot_term(wu, u, c - 0 + 0) by {
            assert(wp[c] == unpadded.w1[r][c]);
            assert(big[c] == x[c]);
        }
        lemma_dot_segments_agree(0, wp, big, 0, 0, wu, u, 0, nr);
        assert forall|c: int| nr <= c < nm implies #[trigger] wp[c] == 0 by {
            assert(wp[c] == padded_w1_entry(unpadded.w1, nr, ter, nm, r, c));
        }
        lemma_dot_zero_weights(0, wp, big, nr, nm);
        assert forall|c: int| nm <= c < nm + ter implies #[trigger] dot_term(wp, big, c) == dot_term(
            wu,
            u,
            c - nm + nr,
        ) by {
            assert(wp[c] == unpadded.w1[r][nr + (c - nm)]);
            assert(big[c] == e[c - nm]);
            assert(u[c - nm + nr] == e[c - nm]);
        }
        lemma_dot_segments_agree(0, wp, big, nm, 0, wu, u, nr, ter);
        assert forall|c: int| nm + ter <= c < IN_MAX implies #[trigger] wp[c] == 0 by {
            assert(wp[c] == padded_w1_entry(unpadded.w1, nr, ter, nm, r, c));
        }
        lemma_dot_zero_weights(0, wp, big, nm + ter, IN_MAX as int);
    } else {
        assert forall|c: int| 0 <= c < IN_MAX implies #[trigger] wp[c] == 0 by {
            assert(wp[c] == padded_w1_entry(unpadded.w1, nr, ter, nm, r, c));
        }
        lemma_dot_zero_weights(0, wp, big, 0, IN_MAX as int);
    }
}

/// The padded second layer computes, on hidden activations that agree with the real ones in the
/// real rows, the real raw sums in the real output rows and zero in the padding rows.
proof fn lemma_padded_output_raw<
    const N_REAL: usize,
    const TE_REAL: usize,
    const IN_REAL: usize,
    const H_REAL: usize,
    const N_MAX: usize,
    const TE_MAX: usize,
    const IN_MAX: usize,
    const H_MAX: usize,
>(
    padded: FixedDenoiseTimeEmbeddingStepParams<N_MAX, TE_MAX, IN_MAX, H_MAX>,
    unpadded: FixedDenoiseTimeEmbeddingStepParams<N_REAL, TE_REAL, IN_REAL, H_REAL>,
    big_h: Seq<int>,
    h: Seq<int>,
    j: int,
)
    requires
        N_REAL <= N_MAX,
        H_REAL <= H_MAX,
        te_step_params_padded(padded, unpadded),
        forall|c: int| 0 <= c < H_REAL ==> #[trigger] big_h[c] == h[c],
        0 <= j < N_MAX,
    ensures
        affine_raw(padded.w2, big_h, j) == if j < N_REAL {
            affine_raw(unpadded.w2, h, j)
        } else {
            0
        },
{
    let wp = ints(padded.w2[j]);
    assert forall|c: int| 0 <= c < H_MAX implies #[trigger] wp[c] == padded_matrix_entry(unpadded.w2, j, c) by {
        assert(padded.w2[j][c] == padded_matrix_entry(unpadded.w2, j, c));
    }
    if j < N_REAL {
        let wu = ints(unpadded.w2[j]);
        assert forall|c: int| 0 <= c < 0 + H_REAL implies #[trigger] dot_term(wp, big_h, c) == dot_term(
            wu,
            h,
            c - 0 + 0,
        ) by {
            assert(wp[c] == padded_matrix_entry(unpadded.w2, j, c));
            assert(big_h[c] == h[c]);
        }
        lemma_dot_segments_agree(0, wp, big_h, 0, 0, wu, h, 0, H_REAL as int);
        assert forall|c: int| H_REAL <= c < H_MAX implies #[trigger] wp[c] == 0 by {
            assert(wp[c] == padded_matrix_entry(unpadded.w2, j, c));
        }
        lemma_dot_zero_weights(0, wp, big_h, H_REAL as int, H_MAX as int);
    } else {
        assert forall|c: int| 0 <= c < H_MAX implies #[trigger] wp[c] == 0 by {
            assert(wp[c] == padded_matrix_entry(unpadded.w2, j, c));
        }
        lemma_dot_zero_weights(0, wp, big_h, 0, H_MAX as int);
    }
}

/// The padded model's hidden activations agree with the real ones in the real rows, and its
/// predicted noise is the real one followed by zeros.
proof fn lemma_padded_te_epsilon<
    const N_REAL: usize,
    const TE_REAL: usize,
    const IN_REAL: usize,
    const H_REAL: usize,
    const N_MAX: usize,
    const TE_MAX: usize,
    const IN_MAX: usize,
    const H_MAX: usize,
>(
    padded: FixedDenoiseTimeEmbeddingStepParams<N_MAX, TE_MAX, IN_MAX, H_MAX>,
    unpadded: FixedDenoiseTimeEmbeddingStepParams<N_REAL, TE_REAL, IN_REAL, H_REAL>,
    config: FixedPointConfig,
    x: Seq<int>,
    e: Seq<int>,
)
    requires
        IN_REAL == N_REAL + TE_REAL,
        IN_MAX == N_MAX + TE_MAX,
        N_REAL <= N_MAX,
        TE_REAL <= TE_MAX,
        H_REAL <= H_MAX,
        te_step_params_padded(padded, unpadded),
        x.len() == N_REAL,
        e.len() == TE_REAL,
        config.scale > 0,
    ensures
        forall|c: int|
            0 <= c < H_REAL ==> #[trigger] two_layer_hidden_act(
                padded.w1,
                padded.b1,
                config,
                pad_ints(x, N_MAX as nat) + pad_ints(e, TE_MAX as nat),
            )[c] == two_layer_hidden_act(unpadded.w1, unpadded.b1, config, x + e)[c],
        te_epsilon(padded, config, pad_ints(x, N_MAX as nat), pad_ints(e, TE_MAX as nat)) == pad_ints(
            te_epsilon(unpadded, config, x, e),
            N_MAX as nat,
        ),
{
    let s = config.scale as int;
    let big_x = pad_ints(x, N_MAX as nat);
    let big_e = pad_ints(e, TE_MAX as nat);
    let big_u = big_x + big_e;
    let u = x + e;
    let big_h = two_layer_hidden_act(padded.w1, padded.b1, config, big_u);
    let h = two_layer_hidden_act(unpadded.w1, unpadded.b1, config, u);
    assert forall|c: int| 0 <= c < H_REAL implies #[trigger] big_h[c] == h[c] by {
        lemma_padded_hidden_raw(padded, unpadded, x, e, c);
        assert(padded.b1@[c] == unpadded.b1@[c]);
        assert(affine_fixed_point_row(padded.w1, padded.b1, big_u, s, c) == affine_fixed_point_row(
            unpadded.w1,
            unpadded.b1,
            u,
            s,
            c,
        ));
    }
    let big_eps = te_epsilon(padded, config, big_x, big_e);
    let eps = te_epsilon(unpadded, config, x, e);
    assert forall|j: int| 0 <= j < N_MAX implies #[trigger] big_eps[j] == pad_ints(eps, N_MAX as nat)[j] by {
        lemma_padded_output_raw(padded, unpadded, big_h, h, j);
        if j < N_REAL {
            assert(padded.b2@[j] == unpadded.b2@[j]);
        } else {
            assert(padded.b2@[j] == 0);
            assert(0int / s == 0) by (nonlinear_arith)
                requires
                    s > 0,
            ;
        }
    }
    assert(big_eps =~= pad_ints(eps, N_MAX as nat));
}

/// One padded denoise iteration on the padded state and padded embedding row gives the padded
/// result of the real iteration: the real coordinates agree and the padding stays zero.
pub proof fn lemma_padded_te_next<
    const N_REAL: usize,
    const TE_REAL: usize,
    const IN_REAL: usize,
    const H_REAL: usize,
    const N_MAX: usize,
    const TE_MAX: usize,
    const IN_MAX: usize,
    const H_MAX: usize,
>(
    padded: FixedDenoiseTimeEmbeddingStepParams<N_MAX, TE_MAX, IN_MAX, H_MAX>,
    unpadded: FixedDenoiseTimeEmbeddingStepParams<N_REAL, TE_REAL, IN_REAL, H_REAL>,
    config: FixedPointConfig,
    mode: DenoiseUpdateMode,
    x: Seq<int>,
    e: Seq<int>,
)
    requires
        IN_REAL == N_REAL + TE_REAL,
        IN_MAX == N_MAX + TE_MAX,
        N_REAL <= N_MAX,
        TE_REAL <= TE_MAX,
        H_REAL <= H_MAX,
        te_step_params_padded(padded, unpadded),
        x.len() == N_REAL,
        e.len() == TE_REAL,
        config.scale > 0,
    ensures
        te_next(padded, config, mode, pad_ints(x, N_MAX as nat), pad_ints(e, TE_MAX as nat)) == pad_ints(
            te_next(unpadded, config, mode, x, e),
            N_MAX as nat,
        ),
{
    let s = config.scale as int;
    let big_x = pad_ints(x, N_MAX as nat);
    let big_e = pad_ints(e, TE_MAX as nat);
    lemma_padded_te_epsilon(padded, unpadded, config, x, e);
    let big_eps = te_epsilon(padded, config, big_x, big_e);
    let eps = te_epsilon(unpadded, config, x, e);
    let lhs = te_next(padded, config, mode, big_x, big_e);
    let rhs = pad_ints(te_next(unpadded, config, mode, x, e), N_MAX as nat);
    assert forall|j: int| 0 <= j < N_MAX implies #[trigger] lhs[j] == rhs[j] by {
        assert(big_eps[j] == pad_ints(eps, N_MAX as nat)[j]);
        if j >= N_REAL {
            assert(big_x[j] == 0);
            assert(big_eps[j] == 0);
            let a = padded.alpha as int;
            let b = padded.beta as int;
            assert((a * 0) / s + (b * 0) / s == 0 && (a * 0 + b * 0) / s == 0) by (nonlinear_arith)
                requires
                    s > 0,
            ;
        }
    }
    assert(lhs =~= rhs);
}

/// Unpadded real output equals the first `N_REAL` entries of the padded output: running the
/// padded model from the padded initial state with the padded embedding table gives, after every
/// number of iterations, the real run's state followed by zeros.
pub proof fn lemma_padded_te_state<
    const N_REAL: usize,
    const TE_REAL: usize,
    const IN_REAL: usize,
    const H_REAL: usize,
    const N_MAX: usize,
    const TE_MAX: usize,
    const IN_MAX: usize,
    const H_MAX: usize,
>(
    padded_params: Seq<FixedDenoiseTimeEmbeddingStepParams<N_MAX, TE_MAX, IN_MAX, H_MAX>>,
    unpadded_params: Seq<FixedDenoiseTimeEmbeddingStepParams<N_REAL, TE_REAL, IN_REAL, H_REAL>>,
    padded_table: Seq<[i64; TE_MAX]>,
    unpadded_table: Seq<[i64; TE_REAL]>,
    config: FixedPointConfig,
    mode: DenoiseUpdateMode,
    x0: Seq<int>,
    t: int,
)
    requires
        IN_REAL == N_REAL + TE_REAL,
        IN_MAX == N_MAX + TE_MAX,
        N_REAL <= N_MAX,
        TE_REAL <= TE_MAX,
        H_REAL <= H_MAX,
        config.scale > 0,
        x0.len() == N_REAL,
        0 <= t <= unpadded_params.len(),
        padded_params.len() == unpadded_params.len(),
        padded_table.len() == unpadded_table.len(),
        unpadded_params.len() <= unpadded_table.len(),
        forall|k: int|
            0 <= k < unpadded_params.len() ==> te_step_params_padded(
                #[trigger] padded_params[k],
                unpadded_params[k],
            ),
        forall|k: int|
            0 <= k < unpadded_table.len() ==> (#[trigger] padded_table[k])@ == padded_vector(
                unpadded_table[k]@,
                TE_MAX as nat,
            ),
    ensures
        te_state(padded_params, padded_table, config, mode, pad_ints(x0, N_MAX as nat), t) == pad_ints(
            te_state(unpadded_params, unpadded_table, config, mode, x0, t),
            N_MAX as nat,
        ),
        te_state(unpadded_params, unpadded_table, config, mode, x0, t).len() == N_REAL,
    decreases t,
{
    if t > 0 {
        lemma_padded_te_state(
            padded_params,
            unpadded_params,
            padded_table,
            unpadded_table,
            config,
            mode,
            x0,
            t - 1,
        );
        let xs = te_state(unpadded_params, unpadded_table, config, mode, x0, t - 1);
        let e = ints(unpadded_table[t - 1]);
        assert(te_step_params_padded(padded_params[t - 1], unpadded_params[t - 1]));
        assert(padded_table[t - 1]@ == padded_vector(unpadded_table[t - 1]@, TE_MAX as nat));
        assert(ints(padded_table[t - 1]) =~= pad_ints(e, TE_MAX as nat));
        lemma_padded_te_next(padded_params[t - 1], unpadded_params[t - 1], config, mode, xs, e);
    }
}

} // verus!

verus! {

/// Zero is an admitted state value, rescale quotient and lookup-table input.
pub open spec fn zero_admitted(config: FixedPointConfig) -> bool {
    &&& config.in_value_range(0)
    &&& config.in_quotient_range(0)
    &&& config.relu_min <= 0 <= config.relu_max
}

/// Term `c` of a real row of the padded first layer is the real row's term at the matching
/// input position, or zero on padding.
proof fn lemma_padded_hidden_term<
    const N_REAL: usize,
    const TE_REAL: usize,
    const IN_REAL: usize,
    const H_REAL: usize,
    const N_MAX: usize,
    const TE_MAX: usize,
    const IN_MAX: usize,
    const H_MAX: usize,
>(
    padded: FixedDenoiseTimeEmbeddingStepParams<N_MAX, TE_MAX, IN_MAX, H_MAX>,
    unpadded: FixedDenoiseTimeEmbeddingStepParams<N_REAL, TE_REAL, IN_REAL, H_REAL>,
    x: Seq<int>,
    e: Seq<int>,
    r: int,
    c: int,
)
    requires
        IN_REAL == N_REAL + TE_REAL,
        IN_MAX == N_MAX + TE_MAX,
        N_REAL <= N_MAX,
        TE_REAL <= TE_MAX,
        H_REAL <= H_MAX,
        te_step_params_padded(padded, unpadded),
        x.len() == N_REAL,
        e.len() == TE_REAL,
        0 <= r < H_MAX,
        0 <= c < IN_MAX,
    ensures
        dot_term(ints(padded.w1[r]), pad_ints(x, N_MAX as nat) + pad_ints(e, TE_MAX as nat), c) == if r
            < H_REAL && c < N_REAL {
            dot_term(ints(unpadded.w1[r]), x + e, c)
        } else if r < H_REAL && N_MAX <= c < N_MAX + TE_REAL {
            dot_term(ints(unpadded.w1[r]), x + e, c - N_MAX + N_REAL)
        } else {
            0
        },
{
    let big = pad_ints(x, N_MAX as nat) + pad_ints(e, TE_MAX as nat);
    let u = x + e;
    assert(padded.w1[r][c] == padded_w1_entry(unpadded.w1, N_REAL as int, TE_REAL as int, N_MAX as int, r, c));
    assert(ints(padded.w1[r])[c] == padded.w1[r][c]);
    if r < H_REAL && c < N_REAL {
        assert(big[c] == x[c]);
        assert(u[c] == x[c]);
        assert(ints(unpadded.w1[r])[c] == unpadded.w1[r][c]);
    } else if r < H_REAL && N_MAX <= c < N_MAX + TE_REAL {
        assert(big[c] == e[c - N_MAX]);
        assert(u[c - N_MAX + N_REAL] == e[c - N_MAX]);
        assert(ints(unpadded.w1[r])[c - N_MAX + N_REAL] == unpadded.w1[r][N_REAL + (c - N_MAX)]);
    } else {
        assert(ints(padded.w1[r])[c] == 0);
        assert(0 * big[c] == 0);
    }
}

/// Every prefix sum of a real row of the padded first layer is a prefix sum of the real row.
proof fn lemma_padded_hidden_prefix<
    const N_REAL: usize,
    const TE_REAL: usize,
    const IN_REAL: usize,
    const H_REAL: usize,
    const N_MAX: usize,
    const TE_MAX: usize,
    const IN_MAX: usize,
    const H_MAX: usize,
>(
    padded: FixedDenoiseTimeEmbeddingStepParams<N_MAX, TE_MAX, IN_MAX, H_MAX>,
    unpadded: FixedDenoiseTimeEmbeddingStepParams<N_REAL, TE_REAL, IN_REAL, H_REAL>,
    x: Seq<int>,
    e: Seq<int>,
    r: int,
    k: int,
) -> (m: int)
    requires
        IN_REAL == N_REAL + TE_REAL,
        IN_MAX == N_MAX + TE_MAX,
        N_REAL <= N_MAX,
        TE_REAL <= TE_MAX,
        H_REAL <= H_MAX,
        te_step_params_padded(padded, unpadded),
        x.len() == N_REAL,
        e.len() == TE_REAL,
        0 <= r < H_REAL,
        0 <= k <= IN_MAX,
    ensures
        0 <= m <= IN_REAL,
        dot_from(0, ints(padded.w1[r]), pad_ints(x, N_MAX as nat) + pad_ints(e, TE_MAX as nat), k) == dot_from(
            0,
            ints(unpadded.w1[r]),
            x + e,
            m,
        ),
{
    let wp = ints(padded.w1[r]);
    let wu = ints(unpadded.w1[r]);
    let big = pad_ints(x, N_MAX as nat) + pad_ints(e, TE_MAX as nat);
    let u = x + e;
    let nr = N_REAL as int;
    let nm = N_MAX as int;
    let ter = TE_REAL as int;
    let head = if k <= nr {
        k
    } else {
        nr
    };
    assert forall|c: int| 0 <= c < 0 + head implies #[trigger] dot_term(wp, big, c) == dot_term(wu, u, c - 0 + 0) by {
        lemma_padded_hidden_term(padded, unpadded, x, e, r, c);
    }
    lemma_dot_segments_agree(0, wp, big, 0, 0, wu, u, 0, head);
    if k <= nr {
        k
    } else {
        let mid = if k <= nm {
            k
        } else {
            nm
        };
        assert forall|c: int| nr <= c < mid implies #[trigger] wp[c] == 0 by {
            assert(padded.w1[r][c] == padded_w1_entry(unpadded.w1, nr, ter, nm, r, c));
        }
        lemma_dot_zero_weights(0, wp, big, nr, mid);
        if k <= nm {
            nr
        } else {
            let len = if k <= nm + ter {
                k - nm
            } else {
                ter
            };
            assert forall|c: int| nm <= c < nm + len implies #[trigger] dot_term(wp, big, c) == dot_term(
                wu,
                u,
                c - nm + nr,
            ) by {
                lemma_padded_hidden_term(padded, unpadded, x, e, r, c);
            }
            lemma_dot_segments_agree(0, wp, big, nm, 0, wu, u, nr, len);
            if k <= nm + ter {
                nr + len
            } else {
                assert forall|c: int| nm + ter <= c < k implies #[trigger] wp[c] == 0 by {
                    assert(padded.w1[r][c] == padded_w1_entry(unpadded.w1, nr, ter, nm, r, c));
                }
                lemma_dot_zero_weights(0, wp, big, nm + ter, k);
                IN_REAL as int
            }
        }
    }
}

/// Every row of the padded first layer accumulates without `i64` overflow when the real rows do.
proof fn lemma_padded_hidden_fits<
    const N_REAL: usize,
    const TE_REAL: usize,
    const IN_REAL: usize,
    const H_REAL: usize,
    const N_MAX: usize,
    const TE_MAX: usize,
    const IN_MAX: usize,
    const H_MAX: usize,
>(
    padded: FixedDenoiseTimeEmbeddingStepParams<N_MAX, TE_MAX, IN_MAX, H_MAX>,
    unpadded: FixedDenoiseTimeEmbeddingStepParams<N_REAL, TE_REAL, IN_REAL, H_REAL>,
    x: Seq<int>,
    e: Seq<int>,
    r: int,
)
    requires
        IN_REAL == N_REAL + TE_REAL,
        IN_MAX == N_MAX + TE_MAX,
        N_REAL <= N_MAX,
        TE_REAL <= TE_MAX,
        H_REAL <= H_MAX,
        te_step_params_padded(padded, unpadded),
        x.len() == N_REAL,
        e.len() == TE_REAL,
        0 <= r < H_MAX,
        r < H_REAL ==> dot_fits(0, ints(unpadded.w1[r]), x + e, IN_REAL as int),
    ensures
        dot_fits(0, ints(padded.w1[r]), pad_ints(x, N_MAX as nat) + pad_ints(e, TE_MAX as nat), IN_MAX as int),
{
    let wp = ints(padded.w1[r]);
    let wu = ints(unpadded.w1[r]);
    let big = pad_ints(x, N_MAX as nat) + pad_ints(e, TE_MAX as nat);
    let u = x + e;
    assert forall|j: int| 0 <= j < IN_MAX implies fits_i64(#[trigger] (wp[j] * big[j])) && fits_i64(
        dot_from(0, wp, big, j + 1),
    ) by {
        lemma_padded_hidden_term(padded, unpadded, x, e, r, j);
        if r < H_REAL {
            if j < N_REAL {
                assert(fits_i64(wu[j] * u[j]));
            } else if N_MAX <= j < N_MAX + TE_REAL {
                assert(fits_i64(wu[j - N_MAX + N_REAL] * u[j - N_MAX + N_REAL]));
            }
            let m = lemma_padded_hidden_prefix(padded, unpadded, x, e, r, j + 1);
            if m > 0 {
                assert(fits_i64(wu[m - 1] * u[m - 1]));
            }
        } else {
            assert forall|c: int| 0 <= c < j + 1 implies #[trigger] wp[c] == 0 by {
                assert(padded.w1[r][c] == padded_w1_entry(
                    unpadded.w1,
                    N_REAL as int,
                    TE_REAL as int,
                    N_MAX as int,
                    r,
                    c,
                ));
            }
            lemma_dot_zero_weights(0, wp, big, 0, j + 1);
        }
    }
}

/// Every row of the padded second layer accumulates without `i64` overflow when the real rows
/// do, on hidden activations that agree with the real ones in the real rows.
proof fn lemma_padded_output_fits<
    const N_REAL: usize,
    const TE_REAL: usize,
    const IN_REAL: usize,
    const H_REAL: usize,
    const N_MAX: usize,
    const TE_MAX: usize,
    const IN_MAX: usize,
    const H_MAX: usize,
>(
    padded: FixedDenoiseTimeEmbeddingStepParams<N_MAX, TE_MAX, IN_MAX, H_MAX>,
    unpadded: FixedDenoiseTimeEmbeddingStepParams<N_REAL, TE_REAL, IN_REAL, H_REAL>,
    big_h: Seq<int>,
    h: Seq<int>,
    j: int,
)
    requires
        N_REAL <= N_MAX,
        H_REAL <= H_MAX,
        te_step_params_padded(padded, unpadded),
        forall|c: int| 0 <= c < H_REAL ==> #[trigger] big_h[c] == h[c],
        0 <= j < N_MAX,
        j < N_REAL ==> dot_fits(0, ints(unpadded.w2[j]), h, H_REAL as int),
    ensures
        dot_fits(0, ints(padded.w2[j]), big_h, H_MAX as int),
{
    let wp = ints(padded.w2[j]);
    let wu = ints(unpadded.w2[j]);
    assert forall|c: int| 0 <= c < H_MAX implies #[trigger] wp[c] == padded_matrix_entry(unpadded.w2, j, c) by {
        assert(padded.w2[j][c] == padded_matrix_entry(unpadded.w2, j, c));
    }
    assert forall|k: int| 0 <= k < H_MAX implies fits_i64(#[trigger] (wp[k] * big_h[k])) && fits_i64(
        dot_from(0, wp, big_h, k + 1),
    ) by {
        assert(wp[k] == padded_matrix_entry(unpadded.w2, j, k));
        if j < N_REAL {
            if k < H_REAL {
                assert(fits_i64(wu[k] * h[k]));
            }
            let head = if k + 1 <= H_REAL {
                k + 1
            } else {
                H_REAL as int
            };
            assert forall|c: int| 0 <= c < 0 + head implies #[trigger] dot_term(wp, big_h, c) == dot_term(
                wu,
                h,
                c - 0 + 0,
            ) by {
                assert(wp[c] == padded_matrix_entry(unpadded.w2, j, c));
            }
            lemma_dot_segments_agree(0, wp, big_h, 0, 0, wu, h, 0, head);
            if k + 1 > H_REAL {
                assert forall|c: int| H_REAL <= c < k + 1 implies #[trigger] wp[c] == 0 by {
                    assert(wp[c] == padded_matrix_entry(unpadded.w2, j, c));
                }
                lemma_dot_zero_weights(0, wp, big_h, H_REAL as int, k + 1);
            }
            if head > 0 {
                assert(fits_i64(wu[head - 1] * h[head - 1]));
            }
        } else {
            assert forall|c: int| 0 <= c < k + 1 implies #[trigger] wp[c] == 0 by {
                assert(wp[c] == padded_matrix_entry(unpadded.w2, j, c));
            }
            lemma_dot_zero_weights(0, wp, big_h, 0, k + 1);
        }
    }
}

} // verus!

verus! {

/// A padded denoise iteration on the padded state and padded embedding row is admitted whenever
/// the real iteration is and zero is an admitted value, quotient and table input: the real
/// coordinates compute exactly the real values and the padding coordinates compute zero.
pub proof fn lemma_padded_te_step_ok<
    const N_REAL: usize,
    const TE_REAL: usize,
    const IN_REAL: usize,
    const H_REAL: usize,
    const N_MAX: usize,
    const TE_MAX: usize,
    const IN_MAX: usize,
    const H_MAX: usize,
>(
    padded: FixedDenoiseTimeEmbeddingStepParams<N_MAX, TE_MAX, IN_MAX, H_MAX>,
    unpadded: FixedDenoiseTimeEmbeddingStepParams<N_REAL, TE_REAL, IN_REAL, H_REAL>,
    config: FixedPointConfig,
    mode: DenoiseUpdateMode,
    x: Seq<int>,
    e: Seq<int>,
)
    requires
        IN_REAL == N_REAL + TE_REAL,
        IN_MAX == N_MAX + TE_MAX,
        N_REAL <= N_MAX,
        TE_REAL <= TE_MAX,
        H_REAL <= H_MAX,
        te_step_params_padded(padded, unpadded),
        x.len() == N_REAL,
        e.len() == TE_REAL,
        config.scale > 0,
        zero_admitted(config),
        te_step_ok(unpadded, config, mode, x, e),
    ensures
        te_step_ok(padded, config, mode, pad_ints(x, N_MAX as nat), pad_ints(e, TE_MAX as nat)),
{
    let s = config.scale as int;
    let bx = pad_ints(x, N_MAX as nat);
    let be = pad_ints(e, TE_MAX as nat);
    let bu = bx + be;
    let u = x + e;
    let bh = two_layer_hidden_act(padded.w1, padded.b1, config, bu);
    let h = two_layer_hidden_act(unpadded.w1, unpadded.b1, config, u);
    let beps = te_epsilon(padded, config, bx, be);
    let eps = te_epsilon(unpadded, config, x, e);
    let a = padded.alpha as int;
    let b = padded.beta as int;
    lemma_padded_te_epsilon(padded, unpadded, config, x, e);
    assert((a * 0) / s == 0 && (b * 0) / s == 0 && (a * 0 + b * 0) / s == 0 && 0int / s == 0) by (nonlinear_arith)
        requires
            s > 0,
    ;
    assert forall|j: int| 0 <= j < N_MAX implies config.in_value_range(#[trigger] bx[j]) by {
        if j < N_REAL {
            assert(config.in_value_range(x[j]));
        }
    }
    assert forall|r: int| 0 <= r < H_MAX implies dot_fits(0, ints(#[trigger] padded.w1[r]), bu, IN_MAX as int)
        && fits_i64(affine_fixed_point_row(padded.w1, padded.b1, bu, s, r)) && config.in_quotient_range(
        affine_raw(padded.w1, bu, r) / s,
    ) && config.table_spec().contains_spec(affine_fixed_point_row(padded.w1, padded.b1, bu, s, r)) by {
        lemma_padded_hidden_raw(padded, unpadded, x, e, r);
        if r < H_REAL {
            assert(dot_fits(0, ints(unpadded.w1[r]), u, IN_REAL as int) && fits_i64(
                affine_fixed_point_row(unpadded.w1, unpadded.b1, u, s, r),
            ));
            assert(config.in_quotient_range(affine_raw(unpadded.w1, u, r) / s));
            assert(padded.b1@[r] == unpadded.b1@[r]);
        } else {
            assert(padded.b1@[r] == 0);
        }
        lemma_padded_hidden_fits(padded, unpadded, x, e, r);
    }
    assert(affine_fixed_point_fits(padded.w1, padded.b1, bu, s));
    assert forall|j: int| 0 <= j < N_MAX implies dot_fits(0, ints(#[trigger] padded.w2[j]), bh, H_MAX as int)
        && fits_i64(affine_fixed_point_row(padded.w2, padded.b2, bh, s, j)) && config.in_quotient_range(
        affine_raw(padded.w2, bh, j) / s,
    ) && config.in_value_range(affine_fixed_point_row(padded.w2, padded.b2, bh, s, j)) by {
        lemma_padded_output_raw(padded, unpadded, bh, h, j);
        if j < N_REAL {
            assert(dot_fits(0, ints(unpadded.w2[j]), h, H_REAL as int) && fits_i64(
                affine_fixed_point_row(unpadded.w2, unpadded.b2, h, s, j),
            ));
            assert(config.in_quotient_range(affine_raw(unpadded.w2, h, j) / s));
            assert(padded.b2@[j] == unpadded.b2@[j]);
        } else {
            assert(padded.b2@[j] == 0);
        }
        lemma_padded_output_fits(padded, unpadded, bh, h, j);
    }
    assert(affine_fixed_point_fits(padded.w2, padded.b2, bh, s));
    assert(two_layer_ok(padded.w1, padded.b1, padded.w2, padded.b2, config, bu));
    assert(bx.len() == N_MAX);
    match mode {
        DenoiseUpdateMode::DoubleFloor => {
            assert forall|j: int| 0 <= j < bx.len() implies fits_i64(a * #[trigger] bx[j]) && fits_i64(b * beps[j])
                && fits_i64(crate::models::denoise_update::double_floor_update(bx[j], beps[j], a, b, s)) by {
                if j < N_REAL {
                    assert(fits_i64(a * x[j]));
                }
            }
        },
        DenoiseUpdateMode::FusedFloor => {
            assert forall|j: int| 0 <= j < bx.len() implies fits_i64(a * #[trigger] bx[j]) && fits_i64(b * beps[j])
                && fits_i64(a * bx[j] + b * beps[j]) by {
                if j < N_REAL {
                    assert(fits_i64(a * x[j]));
                }
            }
        },
    }
    assert(denoise_update_fits(mode, bx, beps, a, b, s));
    assert forall|j: int| 0 <= j < N_MAX implies update_quotients_ok(mode, config, #[trigger] bx[j], beps[j], a, b)
        && config.in_value_range(denoise_update_spec(mode, bx[j], beps[j], a, b, s)) by {
        if j < N_REAL {
            assert(update_quotients_ok(mode, config, x[j], eps[j], a, b));
        }
    }
    assert(bx.len() == N_MAX);
}

/// Unpadded real output equals the first `N_REAL` entries of the padded output, and the padded
/// run succeeds whenever the real one does: when every real iteration is admitted and zero is an
/// admitted value, quotient and table input, every iteration of the padded model from the
/// padded initial state with the padded table is admitted, and after every number of
/// iterations its state is the real state followed by zeros.
pub proof fn lemma_padded_te_trace_ok<
    const N_REAL: usize,
    const TE_REAL: usize,
    const IN_REAL: usize,
    const H_REAL: usize,
    const N_MAX: usize,
    const TE_MAX: usize,
    const IN_MAX: usize,
    const H_MAX: usize,
>(
    padded_params: Seq<FixedDenoiseTimeEmbeddingStepParams<N_MAX, TE_MAX, IN_MAX, H_MAX>>,
    unpadded_params: Seq<FixedDenoiseTimeEmbeddingStepParams<N_REAL, TE_REAL, IN_REAL, H_REAL>>,
    padded_table: Seq<[i64; TE_MAX]>,
    unpadded_table: Seq<[i64; TE_REAL]>,
    config: FixedPointConfig,
    mode: DenoiseUpdateMode,
    x0: Seq<int>,
)
    requires
        IN_REAL == N_REAL + TE_REAL,
        IN_MAX == N_MAX + TE_MAX,
        N_REAL <= N_MAX,
        TE_REAL <= TE_MAX,
        H_REAL <= H_MAX,
        config.scale > 0,
        zero_admitted(config),
        x0.len() == N_REAL,
        padded_params.len() == unpadded_params.len(),
        padded_table.len() == unpadded_table.len(),
        unpadded_params.len() <= unpadded_table.len(),
        forall|k: int|
            0 <= k < unpadded_params.len() ==> te_step_params_padded(
                #[trigger] padded_params[k],
                unpadded_params[k],
            ),
        forall|k: int|
            0 <= k < unpadded_table.len() ==> (#[trigger] padded_table[k])@ == padded_vector(
                unpadded_table[k]@,
                TE_MAX as nat,
            ),
        te_trace_ok(unpadded_params, unpadded_table, config, mode, x0),
    ensures
        te_trace_ok(padded_params, padded_table, config, mode, pad_ints(x0, N_MAX as nat)),
        forall|t: int|
            0 <= t <= unpadded_params.len() ==> #[trigger] te_state(
                padded_params,
                padded_table,
                config,
                mode,
                pad_ints(x0, N_MAX as nat),
                t,
            ) == pad_ints(te_state(unpadded_params, unpadded_table, config, mode, x0, t), N_MAX as nat),
{
    assert forall|t: int| 0 <= t <= unpadded_params.len() implies #[trigger] te_state(
        padded_params,
        padded_table,
        config,
        mode,
        pad_ints(x0, N_MAX as nat),
        t,
    ) == pad_ints(te_state(unpadded_params, unpadded_table, config, mode, x0, t), N_MAX as nat) by {
        lemma_padded_te_state(
            padded_params,
            unpadded_params,
            padded_table,
            unpadded_table,
            config,
            mode,
            x0,
            t,
        );
    }
    assert forall|t: int| 0 <= t < padded_params.len() implies te_step_ok(
        #[trigger] padded_params[t],
        config,
        mode,
        te_state(padded_params, padded_table, config, mode, pad_ints(x0, N_MAX as nat), t),
        ints(padded_table[t]),
    ) by {
        lemma_padded_te_state(
            padded_params,
            unpadded_params,
            padded_table,
            unpadded_table,
            config,
            mode,
            x0,
            t,
        );
        let xs = te_state(unpadded_params, unpadded_table, config, mode, x0, t);
        let e = ints(unpadded_table[t]);
        assert(te_step_ok(unpadded_params[t], config, mode, xs, e));
        assert(te_step_params_padded(padded_params[t], unpadded_params[t]));
        assert(padded_table[t]@ == padded_vector(unpadded_table[t]@, TE_MAX as nat));
        assert(ints(padded_table[t]) =~= pad_ints(e, TE_MAX as nat));
        lemma_padded_te_step_ok(padded_params[t], unpadded_params[t], config, mode, xs, e);
    }
}

} // verus!

verus! {

/// The public state `[x0 | y | 0 | params... | table...]` of the padded trace with a public
/// output has the layout `PublicStateLayout { n: N_MAX, has_output: true, has_commitment: false,
/// .. }` with blocks of `H*IN + H + N*H + N + 2` entries: its length is the layout's state length,
/// `x0` is at `x_range`, `y` at `y_range`, `t = 0` at `t_index`, parameter block `i` at
/// `param_block_range(i)` and table row `i` at `time_table_row_range(i)`, after every block.
pub proof fn lemma_padded_output_z0_matches_layout<const N_MAX: usize, const TE_MAX: usize, const IN_MAX: usize, const H_MAX: usize>(
    public_params: FixedDenoiseTimeEmbeddingPublicParams<N_MAX, TE_MAX, IN_MAX, H_MAX>,
    x0: [i64; N_MAX],
    expected_output: [i64; N_MAX],
    layout: PublicStateLayout,
    i: int,
)
    requires
        public_params.params_seq@.len() == public_params.time_table@.len(),
        public_params.params_seq@.len() <= usize::MAX,
        H_MAX * IN_MAX + H_MAX + N_MAX * H_MAX + N_MAX + 2 <= usize::MAX,
        layout == (PublicStateLayout {
            n: N_MAX,
            has_output: true,
            has_commitment: false,
            total_iters: public_params.params_seq@.len() as usize,
            param_block_len: (H_MAX * IN_MAX + H_MAX + N_MAX * H_MAX + N_MAX + 2) as usize,
            time_emb_dim: TE_MAX,
        }),
    ensures
        ({
            let z0 = padded_output_z0(public_params, x0, expected_output);
            &&& z0.len() == layout.state_len_spec()
            &&& z0.subrange(0, N_MAX as int) == x0@
            &&& z0.subrange(N_MAX as int, 2 * N_MAX) == expected_output@
            &&& z0[layout.t_index_spec()] == 0
            &&& 0 <= i < public_params.params_seq@.len() ==> z0.subrange(
                layout.block_start_spec(i),
                layout.block_start_spec(i) + layout.param_block_len,
            ) == public_params.params_seq@[i].flatten_spec()
            &&& 0 <= i < public_params.params_seq@.len() ==> z0.subrange(
                layout.row_start_spec(i),
                layout.row_start_spec(i) + TE_MAX,
            ) == public_params.time_table@[i]@
        }),
{
    let params = public_params.params_seq@;
    let table = public_params.time_table@;
    let z0 = padded_output_z0(public_params, x0, expected_output);
    let b = (H_MAX * IN_MAX + H_MAX + N_MAX * H_MAX + N_MAX + 2) as int;
    lemma_te_params_flat_blocks(params, i);
    lemma_table_flat_rows(table, i);
    let pf = te_params_flat(params);
    let tf = table_flat(table);
    assert(z0.subrange(0, N_MAX as int) =~= x0@);
    assert(z0.subrange(N_MAX as int, 2 * N_MAX) =~= expected_output@);
    if 0 <= i < params.len() {
        assert(0 <= i * b && i * b + b <= params.len() * b) by (nonlinear_arith)
            requires
                0 <= i < params.len(),
                0 <= b,
        ;
        assert(0 <= i * TE_MAX && i * TE_MAX + TE_MAX <= table.len() * TE_MAX) by (nonlinear_arith)
            requires
                0 <= i < table.len(),
        ;
        assert(z0.subrange(2 * N_MAX + 1 + i * b, 2 * N_MAX + 1 + i * b + b) =~= pf.subrange(i * b, i * b + b));
        assert(z0.subrange(2 * N_MAX + 1 + pf.len() + i * TE_MAX, 2 * N_MAX + 1 + pf.len() + i * TE_MAX + TE_MAX)
            =~= tf.subrange(i * TE_MAX, i * TE_MAX + TE_MAX));
    }
}

} // verus!
