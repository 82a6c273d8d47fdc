use vstd::prelude::*;

use crate::fixed_point::{checked_dot, dot_fits, dot_from, fits_i64, ints, rescale_with_remainder};

verus! {

/// Raw accumulator `sum_c w[r][c] * x[c]` of output row `r`.
pub open spec fn affine_raw<const OUT: usize, const IN: usize>(
    w: [[i64; IN]; OUT],
    x: Seq<int>,
    r: int,
) -> int {
    dot_from(0, ints(w[r]), x, IN as int)
}

/// Output row `r` of the fixed-point affine map: `floor(raw_r / scale) + b[r]`.
pub open spec fn affine_fixed_point_row<const OUT: usize, const IN: usize>(
    w: [[i64; IN]; OUT],
    b: [i64; OUT],
    x: Seq<int>,
    scale: int,
    r: int,
) -> int {
    affine_raw(w, x, r) / scale + b[r]
}

/// The fixed-point affine map of `x` computed with `i64` arithmetic never overflows: every row's
/// products and running sums fit, and so does every output `floor(raw / scale) + b`.
pub open spec fn affine_fixed_point_fits<const OUT: usize, const IN: usize>(
    w: [[i64; IN]; OUT],
    b: [i64; OUT],
    x: Seq<int>,
    scale: int,
) -> bool {
    forall|r: int|
        0 <= r < OUT ==> dot_fits(0, ints(#[trigger] w[r]), x, IN as int) && fits_i64(
            affine_fixed_point_row(w, b, x, scale, r),
        )
}

/// The witness `(raw, quotient, remainder, y)` of the fixed-point affine map, row by row.
pub open spec fn affine_witness_matches<const OUT: usize, const IN: usize>(
    w: [[i64; IN]; OUT],
    b: [i64; OUT],
    x: Seq<int>,
    scale: int,
    raw: [i64; OUT],
    quotient: [i64; OUT],
    remainder: [i64; OUT],
    y: [i64; OUT],
) -> bool {
    forall|r: int|
        0 <= r < OUT ==> {
            &&& #[trigger] raw[r] == affine_raw(w, x, r)
            &&& quotient[r] == affine_raw(w, x, r) / scale
            &&& remainder[r] == affine_raw(w, x, r) % scale
            &&& y[r] == affine_fixed_point_row(w, b, x, scale, r)
        }
}

/// Fixed-point affine map with its witness, or `None` when `i64` arithmetic would overflow.
pub fn try_apply_affine_fixed_point_with_witness<const OUT: usize, const IN: usize>(
    w: &[[i64; IN]; OUT],
    b: &[i64; OUT],
    x: &[i64; IN],
    scale: i64,
) -> (res: Option<([i64; OUT], [i64; OUT], [i64; OUT], [i64; OUT])>)
    requires
        scale > 0,
    ensures
        res is Some <==> affine_fixed_point_fits(*w, *b, ints(*x), scale as int),
        res matches Some(v) ==> affine_witness_matches(*w, *b, ints(*x), scale as int, v.0, v.1, v.2, v.3),
{
    let mut raw = [0i64; OUT];
    let mut quotient = [0i64; OUT];
    let mut remainder = [0i64; OUT];
    let mut y = [0i64; OUT];
    let mut r: usize = 0;
    while r < OUT
        invariant
            r <= OUT,
            scale > 0,
            forall|k: int|
                0 <= k < r ==> dot_fits(0, ints(#[trigger] w[k]), ints(*x), IN as int) && fits_i64(
                    affine_fixed_point_row(*w, *b, ints(*x), scale as int, k),
                ),
            forall|k: int|
                0 <= k < r ==> {
                    &&& #[trigger] raw[k] == affine_raw(*w, ints(*x), k)
                    &&& quotient[k] == affine_raw(*w, ints(*x), k) / (scale as int)
                    &&& remainder[k] == affine_raw(*w, ints(*x), k) % (scale as int)
                    &&& y[k] == affine_fixed_point_row(*w, *b, ints(*x), scale as int, k)
                },
        decreases OUT - r,
    {
        let row = w[r];
        match checked_dot(0, &row, x) {
            None => {
                assert(!dot_fits(0, ints(w[r as int]), ints(*x), IN as int));
                return None;
            },
            Some(acc) => {
                let (q, rem) = rescale_with_remainder(acc, scale);
                match q.checked_add(b[r]) {
                    None => {
                        assert(!fits_i64(affine_fixed_point_row(*w, *b, ints(*x), scale as int, r as int)));
                        return None;
                    },
                    Some(v) => {
                        raw[r] = acc;
                        quotient[r] = q;
                        remainder[r] = rem;
                        y[r] = v;
                    },
                }
            },
        }
        r = r + 1;
    }
    Some((raw, quotient, remainder, y))
}

/// Returns `(raw_sum, quotient, remainder, y)` per output coordinate of the fixed-point affine
/// map `y = floor((W x) / scale) + b`.
pub fn apply_affine_fixed_point_with_witness<const OUT: usize, const IN: usize>(
    w: &[[i64; IN]; OUT],
    b: &[i64; OUT],
    x: &[i64; IN],
    scale: i64,
) -> (res: ([i64; OUT], [i64; OUT], [i64; OUT], [i64; OUT]))
    requires
        scale > 0,
        affine_fixed_point_fits(*w, *b, ints(*x), scale as int),
    ensures
        affine_witness_matches(*w, *b, ints(*x), scale as int, res.0, res.1, res.2, res.3),
{
    match try_apply_affine_fixed_point_with_witness(w, b, x, scale) {
        Some(v) => v,
        None => {
            assert(false);
            ([0i64; OUT], [0i64; OUT], [0i64; OUT], [0i64; OUT])
        },
    }
}

/// Fixed-point affine with public integer parameters: `y = floor((W x) / scale) + b`.
pub fn apply_affine_fixed_point<const OUT: usize, const IN: usize>(
    w: &[[i64; IN]; OUT],
    b: &[i64; OUT],
    x: &[i64; IN],
    scale: i64,
) -> (y: [i64; OUT])
    requires
        scale > 0,
        affine_fixed_point_fits(*w, *b, ints(*x), scale as int),
    ensures
        forall|r: int|
            0 <= r < OUT ==> #[trigger] y[r] == affine_fixed_point_row(*w, *b, ints(*x), scale as int, r),
{
    let res = apply_affine_fixed_point_with_witness(w, b, x, scale);
    assert forall|r: int| 0 <= r < OUT implies #[trigger] res.3[r] == affine_fixed_point_row(
        *w,
        *b,
        ints(*x),
        scale as int,
        r,
    ) by {
        assert(res.0[r] == affine_raw(*w, ints(*x), r));
    }
    res.3
}

} // verus!

verus! {

/// A fixed-point affine witness is floor division by `scale` row by row: `raw[r]` is the dot
/// product of row `r` with `x`, `raw[r] = quotient[r] * scale + remainder[r]` with
/// `0 <= remainder[r] < scale`, and `y[r] = quotient[r] + b[r]`.
pub proof fn lemma_affine_witness_arithmetic<const OUT: usize, const IN: usize>(
    w: [[i64; IN]; OUT],
    b: [i64; OUT],
    x: Seq<int>,
    scale: int,
    raw: [i64; OUT],
    quotient: [i64; OUT],
    remainder: [i64; OUT],
    y: [i64; OUT],
    r: int,
)
    requires
        scale > 0,
        affine_witness_matches(w, b, x, scale, raw, quotient, remainder, y),
        0 <= r < OUT,
    ensures
        raw[r] == dot_from(0, ints(w[r]), x, IN as int),
        quotient[r] * scale + remainder[r] == raw[r],
        0 <= remainder[r] < scale,
        y[r] == quotient[r] + b[r],
{
    assert(raw[r] == affine_raw(w, x, r));
    vstd::arithmetic::div_mod::lemma_fundamental_div_mod(raw[r] as int, scale);
    vstd::arithmetic::mul::lemma_mul_is_commutative(scale, (raw[r] as int) / scale);
}

} // verus!
