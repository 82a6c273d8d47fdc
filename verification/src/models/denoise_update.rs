use vstd::prelude::*;

use crate::fixed_point::{fits_i64, ints, rescale_with_remainder};

verus! {

/// How the denoise update rescales:
/// `DoubleFloor`: `x' = floor(alpha x / S) + floor(beta eps / S)`;
/// `FusedFloor`: `x' = floor((alpha x + beta eps) / S)`.
#[derive(Clone, Copy, Debug, PartialEq, Eq)]
pub enum DenoiseUpdateMode {
    DoubleFloor,
    FusedFloor,
}

impl Default for DenoiseUpdateMode {
    fn default() -> (m: Self)
        ensures
            m == DenoiseUpdateMode::DoubleFloor,
    {
        DenoiseUpdateMode::DoubleFloor
    }
}

/// Integer witness of the coordinate-wise denoise update.
#[derive(Clone, Copy, Debug, PartialEq, Eq)]
pub enum DenoiseUpdateWitness<const N: usize> {
    DoubleFloor {
        alpha_raw: [i64; N],
        alpha_q: [i64; N],
        alpha_r: [i64; N],
        beta_raw: [i64; N],
        beta_q: [i64; N],
        beta_r: [i64; N],
        x_next: [i64; N],
    },
    FusedFloor { fused_raw: [i64; N], fused_q: [i64; N], fused_r: [i64; N], x_next: [i64; N] },
}

impl<const N: usize> DenoiseUpdateWitness<N> {
    /// The all-zero `DoubleFloor` witness.
    pub fn zero_double_floor() -> (w: Self)
        ensures
            w matches Self::DoubleFloor { alpha_raw, alpha_q, alpha_r, beta_raw, beta_q, beta_r, x_next } && {
                forall|j: int|
                    0 <= j < N ==> alpha_raw[j] == 0 && alpha_q[j] == 0 && alpha_r[j] == 0
                        && beta_raw[j] == 0 && beta_q[j] == 0 && beta_r[j] == 0 && #[trigger] x_next[j]
                        == 0
            },
    {
        Self::DoubleFloor {
            alpha_raw: [0; N],
            alpha_q: [0; N],
            alpha_r: [0; N],
            beta_raw: [0; N],
            beta_q: [0; N],
            beta_r: [0; N],
            x_next: [0; N],
        }
    }

    /// The all-zero `FusedFloor` witness.
    pub fn zero_fused_floor() -> (w: Self)
        ensures
            w matches Self::FusedFloor { fused_raw, fused_q, fused_r, x_next } && {
                forall|j: int|
                    0 <= j < N ==> fused_raw[j] == 0 && fused_q[j] == 0 && fused_r[j] == 0
                        && #[trigger] x_next[j] == 0
            },
    {
        Self::FusedFloor { fused_raw: [0; N], fused_q: [0; N], fused_r: [0; N], x_next: [0; N] }
    }

    pub open spec fn x_next_spec(&self) -> [i64; N] {
        match self {
            Self::DoubleFloor { x_next, .. } => *x_next,
            Self::FusedFloor { x_next, .. } => *x_next,
        }
    }

    /// The updated state carried by either variant.
    pub fn x_next(&self) -> (x: &[i64; N])
        ensures
            *x == self.x_next_spec(),
    {
        match self {
            Self::DoubleFloor { x_next, .. } => x_next,
            Self::FusedFloor { x_next, .. } => x_next,
        }
    }
}

/// `floor(alpha x / S) + floor(beta eps / S)`.
pub open spec fn double_floor_update(x: int, eps: int, alpha: int, beta: int, scale: int) -> int {
    (alpha * x) / scale + (beta * eps) / scale
}

/// `floor((alpha x + beta eps) / S)`.
pub open spec fn fused_floor_update(x: int, eps: int, alpha: int, beta: int, scale: int) -> int {
    (alpha * x + beta * eps) / scale
}

/// The updated coordinate in the given mode.
pub open spec fn denoise_update_spec(
    mode: DenoiseUpdateMode,
    x: int,
    eps: int,
    alpha: int,
    beta: int,
    scale: int,
) -> int {
    match mode {
        DenoiseUpdateMode::DoubleFloor => double_floor_update(x, eps, alpha, beta, scale),
        DenoiseUpdateMode::FusedFloor => fused_floor_update(x, eps, alpha, beta, scale),
    }
}

/// The update of every coordinate is computable in `i64` without overflow.
pub open spec fn denoise_update_fits(
    mode: DenoiseUpdateMode,
    x: Seq<int>,
    eps: Seq<int>,
    alpha: int,
    beta: int,
    scale: int,
) -> bool {
    forall|j: int|
        0 <= j < x.len() ==> {
            &&& fits_i64(alpha * #[trigger] x[j])
            &&& fits_i64(beta * eps[j])
            &&& match mode {
                DenoiseUpdateMode::DoubleFloor => fits_i64(
                    double_floor_update(x[j], eps[j], alpha, beta, scale),
                ),
                DenoiseUpdateMode::FusedFloor => fits_i64(alpha * x[j] + beta * eps[j]),
            }
        }
}

/// `w` is the witness of the update of `x` by `eps` in the given mode.
pub open spec fn denoise_update_matches<const N: usize>(
    w: DenoiseUpdateWitness<N>,
    mode: DenoiseUpdateMode,
    x: Seq<int>,
    eps: Seq<int>,
    alpha: int,
    beta: int,
    scale: int,
) -> bool {
    match w {
        DenoiseUpdateWitness::DoubleFloor {
            alpha_raw,
            alpha_q,
            alpha_r,
            beta_raw,
            beta_q,
            beta_r,
            x_next,
        } => {
            &&& mode == DenoiseUpdateMode::DoubleFloor
            &&& forall|j: int| 0 <= j < N ==> #[trigger] alpha_raw[j] == alpha * x[j]
            &&& forall|j: int| 0 <= j < N ==> #[trigger] alpha_q[j] == (alpha * x[j]) / scale
            &&& forall|j: int| 0 <= j < N ==> #[trigger] alpha_r[j] == (alpha * x[j]) % scale
            &&& forall|j: int| 0 <= j < N ==> #[trigger] beta_raw[j] == beta * eps[j]
            &&& forall|j: int| 0 <= j < N ==> #[trigger] beta_q[j] == (beta * eps[j]) / scale
            &&& forall|j: int| 0 <= j < N ==> #[trigger] beta_r[j] == (beta * eps[j]) % scale
            &&& forall|j: int|
                0 <= j < N ==> #[trigger] x_next[j] == double_floor_update(x[j], eps[j], alpha, beta, scale)
        },
        DenoiseUpdateWitness::FusedFloor { fused_raw, fused_q, fused_r, x_next } => {
            &&& mode == DenoiseUpdateMode::FusedFloor
            &&& forall|j: int| 0 <= j < N ==> #[trigger] fused_raw[j] == alpha * x[j] + beta * eps[j]
            &&& forall|j: int| 0 <= j < N ==> #[trigger] fused_q[j] == (alpha * x[j] + beta * eps[j]) / scale
            &&& forall|j: int| 0 <= j < N ==> #[trigger] fused_r[j] == (alpha * x[j] + beta * eps[j]) % scale
            &&& forall|j: int|
                0 <= j < N ==> #[trigger] x_next[j] == fused_floor_update(x[j], eps[j], alpha, beta, scale)
        },
    }
}

/// The denoise update with its witness, or `None` when `i64` arithmetic would overflow.
pub fn try_compute_denoise_update_witness<const N: usize>(
    x: &[i64; N],
    epsilon: &[i64; N],
    alpha: i64,
    beta: i64,
    scale: i64,
    mode: DenoiseUpdateMode,
) -> (res: Option<DenoiseUpdateWitness<N>>)
    requires
        scale > 0,
    ensures
        res is Some <==> denoise_update_fits(mode, ints(*x), ints(*epsilon), alpha as int, beta as int, scale as int),
        res matches Some(w) ==> denoise_update_matches(w, mode, ints(*x), ints(*epsilon), alpha as int, beta as int, scale as int),
{
    let ghost xs = ints(*x);
    let ghost es = ints(*epsilon);
    match mode {
        DenoiseUpdateMode::DoubleFloor => {
            let mut alpha_raw = [0i64; N];
            let mut alpha_q = [0i64; N];
            let mut alpha_r = [0i64; N];
            let mut beta_raw = [0i64; N];
            let mut beta_q = [0i64; N];
            let mut beta_r = [0i64; N];
            let mut x_next = [0i64; N];
            let mut j: usize = 0;
            while j < N
                invariant
                    j <= N,
                    scale > 0,
                    mode == DenoiseUpdateMode::DoubleFloor,
                    xs == ints(*x),
                    es == ints(*epsilon),
                    forall|k: int|
                        0 <= k < j ==> {
                            &&& fits_i64(alpha * #[trigger] xs[k])
                            &&& fits_i64(beta * es[k])
                            &&& fits_i64(double_floor_update(xs[k], es[k], alpha as int, beta as int, scale as int))
                        },
                    forall|k: int| 0 <= k < j ==> #[trigger] alpha_raw[k] == alpha * xs[k],
                    forall|k: int| 0 <= k < j ==> #[trigger] alpha_q[k] == (alpha * xs[k]) / (scale as int),
                    forall|k: int| 0 <= k < j ==> #[trigger] alpha_r[k] == (alpha * xs[k]) % (scale as int),
                    forall|k: int| 0 <= k < j ==> #[trigger] beta_raw[k] == beta * es[k],
                    forall|k: int| 0 <= k < j ==> #[trigger] beta_q[k] == (beta * es[k]) / (scale as int),
                    forall|k: int| 0 <= k < j ==> #[trigger] beta_r[k] == (beta * es[k]) % (scale as int),
                    forall|k: int|
                        0 <= k < j ==> #[trigger] x_next[k] == double_floor_update(
                            xs[k],
                            es[k],
                            alpha as int,
                            beta as int,
                            scale as int,
                        ),
                decreases N - j,
            {
                let a = match alpha.checked_mul(x[j]) {
                    Some(v) => v,
                    None => {
                        assert(!fits_i64(alpha * xs[j as int]));
                        return None;
                    },
                };
                let b = match beta.checked_mul(epsilon[j]) {
                    Some(v) => v,
                    None => {
                        assert(!fits_i64(beta * es[j as int]) && fits_i64(alpha * xs[j as int]));
                        return None;
                    },
                };
                assert(a == alpha * xs[j as int]);
                assert(b == beta * es[j as int]);
                let (aq, ar) = rescale_with_remainder(a, scale);
                let (bq, br) = rescale_with_remainder(b, scale);
                let s = match aq.checked_add(bq) {
                    Some(v) => v,
                    None => {
                        assert(!fits_i64(double_floor_update(xs[j as int], es[j as int], alpha as int, beta as int, scale as int)));
                        return None;
                    },
                };
                alpha_raw[j] = a;
                alpha_q[j] = aq;
                alpha_r[j] = ar;
                beta_raw[j] = b;
                beta_q[j] = bq;
                beta_r[j] = br;
                x_next[j] = s;
                assert(fits_i64(double_floor_update(xs[j as int], es[j as int], alpha as int, beta as int, scale as int)));
                assert(fits_i64(alpha * xs[j as int]));
                assert(fits_i64(beta * es[j as int]));
                j = j + 1;
            }
            Some(DenoiseUpdateWitness::DoubleFloor { alpha_raw, alpha_q, alpha_r, beta_raw, beta_q, beta_r, x_next })
        },
        DenoiseUpdateMode::FusedFloor => {
            let mut fused_raw = [0i64; N];
            let mut fused_q = [0i64; N];
            let mut fused_r = [0i64; N];
            let mut x_next = [0i64; N];
            let mut j: usize = 0;
            while j < N
                invariant
                    j <= N,
                    scale > 0,
                    mode == DenoiseUpdateMode::FusedFloor,
                    xs == ints(*x),
                    es == ints(*epsilon),
                    forall|k: int|
                        0 <= k < j ==> {
                            &&& fits_i64(alpha * #[trigger] xs[k])
                            &&& fits_i64(beta * es[k])
                            &&& fits_i64(alpha * xs[k] + beta * es[k])
                        },
                    forall|k: int| 0 <= k < j ==> #[trigger] fused_raw[k] == alpha * xs[k] + beta * es[k],
                    forall|k: int|
                        0 <= k < j ==> #[trigger] fused_q[k] == (alpha * xs[k] + beta * es[k]) / (scale as int),
                    forall|k: int|
                        0 <= k < j ==> #[trigger] fused_r[k] == (alpha * xs[k] + beta * es[k]) % (scale as int),
                    forall|k: int|
                        0 <= k < j ==> #[trigger] x_next[k] == fused_floor_update(
                            xs[k],
                            es[k],
                            alpha as int,
                            beta as int,
                            scale as int,
                        ),
                decreases N - j,
            {
                let a = match alpha.checked_mul(x[j]) {
                    Some(v) => v,
                    None => {
                        assert(!fits_i64(alpha * xs[j as int]));
                        return None;
                    },
                };
                let b = match beta.checked_mul(epsilon[j]) {
                    Some(v) => v,
                    None => {
                        assert(!fits_i64(beta * es[j as int]) && fits_i64(alpha * xs[j as int]));
                        return None;
                    },
                };
                let raw = match a.checked_add(b) {
                    Some(v) => v,
                    None => {
                        assert(!fits_i64(alpha * xs[j as int] + beta * es[j as int]));
                        return None;
                    },
                };
                assert(raw == alpha * xs[j as int] + beta * es[j as int]);
                let (q, r) = rescale_with_remainder(raw, scale);
                fused_raw[j] = raw;
                fused_q[j] = q;
                fused_r[j] = r;
                x_next[j] = q;
                assert(fits_i64(alpha * xs[j as int]));
                assert(fits_i64(beta * es[j as int]));
                assert(fits_i64(alpha * xs[j as int] + beta * es[j as int]));
                j = j + 1;
            }
            Some(DenoiseUpdateWitness::FusedFloor { fused_raw, fused_q, fused_r, x_next })
        },
    }
}

/// Coordinate-wise denoise update of `x` by the predicted noise `epsilon` with schedule
/// `(alpha, beta)` in the given rescaling mode, with its witness.
pub fn compute_denoise_update_witness<const N: usize>(
    x: &[i64; N],
    epsilon: &[i64; N],
    alpha: i64,
    beta: i64,
    scale: i64,
    mode: DenoiseUpdateMode,
) -> (w: DenoiseUpdateWitness<N>)
    requires
        scale > 0,
        denoise_update_fits(mode, ints(*x), ints(*epsilon), alpha as int, beta as int, scale as int),
    ensures
        denoise_update_matches(w, mode, ints(*x), ints(*epsilon), alpha as int, beta as int, scale as int),
{
    match try_compute_denoise_update_witness(x, epsilon, alpha, beta, scale, mode) {
        Some(w) => w,
        None => {
            assert(false);
            DenoiseUpdateWitness::zero_double_floor()
        },
    }
}

} // verus!

verus! {

/// The two rescaling modes differ by at most one unit: for `S > 0`,
/// `floor(a/S) + floor(b/S) <= floor((a + b)/S) <= floor(a/S) + floor(b/S) + 1`,
/// so `FusedFloor` never lands below `DoubleFloor` and at most one step above it.
pub proof fn lemma_fused_floor_within_one_of_double_floor(
    x: int,
    eps: int,
    alpha: int,
    beta: int,
    scale: int,
)
    requires
        scale > 0,
    ensures
        double_floor_update(x, eps, alpha, beta, scale) <= fused_floor_update(x, eps, alpha, beta, scale),
        fused_floor_update(x, eps, alpha, beta, scale) <= double_floor_update(x, eps, alpha, beta, scale) + 1,
{
    let a = alpha * x;
    let b = beta * eps;
    vstd::arithmetic::div_mod::lemma_fundamental_div_mod(a, scale);
    vstd::arithmetic::div_mod::lemma_fundamental_div_mod(b, scale);
    vstd::arithmetic::div_mod::lemma_mod_bound(a, scale);
    vstd::arithmetic::div_mod::lemma_mod_bound(b, scale);
    let qa = a / scale;
    let ra = a % scale;
    let qb = b / scale;
    let rb = b % scale;
    assert(a + b == (qa + qb) * scale + (ra + rb)) by (nonlinear_arith)
        requires
            a == scale * qa + ra,
            b == scale * qb + rb,
    ;
    if ra + rb < scale {
        vstd::arithmetic::div_mod::lemma_fundamental_div_mod_converse(a + b, scale, qa + qb, ra + rb);
    } else {
        assert(a + b == (qa + qb + 1) * scale + (ra + rb - scale)) by (nonlinear_arith)
            requires
                a + b == (qa + qb) * scale + (ra + rb),
        ;
        vstd::arithmetic::div_mod::lemma_fundamental_div_mod_converse(
            a + b,
            scale,
            qa + qb + 1,
            ra + rb - scale,
        );
    }
}

} // verus!

verus! {

/// The witness of an update is floor division by `S`, coordinate by coordinate. In
/// `DoubleFloor` mode `alpha_raw = alpha x`, `beta_raw = beta eps`, each raw value is
/// `q * S + r` with `0 <= r < S`, and `x_next = alpha_q + beta_q`. In `FusedFloor` mode
/// `fused_raw = alpha x + beta eps = fused_q * S + fused_r` with `0 <= fused_r < S`, and
/// `x_next = fused_q`.
pub proof fn lemma_denoise_update_witness_floor<const N: usize>(
    w: DenoiseUpdateWitness<N>,
    mode: DenoiseUpdateMode,
    x: Seq<int>,
    eps: Seq<int>,
    alpha: int,
    beta: int,
    scale: int,
    j: int,
)
    requires
        scale > 0,
        denoise_update_matches(w, mode, x, eps, alpha, beta, scale),
        0 <= j < N,
    ensures
        w matches DenoiseUpdateWitness::DoubleFloor { alpha_raw, alpha_q, alpha_r, beta_raw, beta_q, beta_r, x_next }
            ==> {
            &&& mode == DenoiseUpdateMode::DoubleFloor
            &&& alpha_raw[j] == alpha * x[j]
            &&& alpha_q[j] * scale + alpha_r[j] == alpha_raw[j]
            &&& 0 <= alpha_r[j] < scale
            &&& beta_raw[j] == beta * eps[j]
            &&& beta_q[j] * scale + beta_r[j] == beta_raw[j]
            &&& 0 <= beta_r[j] < scale
            &&& x_next[j] == alpha_q[j] + beta_q[j]
        },
        w matches DenoiseUpdateWitness::FusedFloor { fused_raw, fused_q, fused_r, x_next } ==> {
            &&& mode == DenoiseUpdateMode::FusedFloor
            &&& fused_raw[j] == alpha * x[j] + beta * eps[j]
            &&& fused_q[j] * scale + fused_r[j] == fused_raw[j]
            &&& 0 <= fused_r[j] < scale
            &&& x_next[j] == fused_q[j]
        },
{
    match w {
        DenoiseUpdateWitness::DoubleFloor { alpha_raw, alpha_q, alpha_r, beta_raw, beta_q, beta_r, x_next } => {
            assert(alpha_raw[j] == alpha * x[j]);
            assert(alpha_q[j] == (alpha * x[j]) / scale);
            assert(alpha_r[j] == (alpha * x[j]) % scale);
            assert(beta_raw[j] == beta * eps[j]);
            assert(beta_q[j] == (beta * eps[j]) / scale);
            assert(beta_r[j] == (beta * eps[j]) % scale);
            assert(x_next[j] == double_floor_update(x[j], eps[j], alpha, beta, scale));
            vstd::arithmetic::div_mod::lemma_fundamental_div_mod(alpha * x[j], scale);
            vstd::arithmetic::div_mod::lemma_fundamental_div_mod(beta * eps[j], scale);
            vstd::arithmetic::mul::lemma_mul_is_commutative(scale, alpha_q[j] as int);
            vstd::arithmetic::mul::lemma_mul_is_commutative(scale, beta_q[j] as int);
        },
        DenoiseUpdateWitness::FusedFloor { fused_raw, fused_q, fused_r, x_next } => {
            let v = alpha * x[j] + beta * eps[j];
            assert(fused_raw[j] == v);
            assert(fused_q[j] == v / scale);
            assert(fused_r[j] == v % scale);
            assert(x_next[j] == fused_floor_update(x[j], eps[j], alpha, beta, scale));
            vstd::arithmetic::div_mod::lemma_fundamental_div_mod(v, scale);
            vstd::arithmetic::mul::lemma_mul_is_commutative(scale, fused_q[j] as int);
        },
    }
}

} // verus!
