use vstd::prelude::*;

verus! {

/// The integers held by an array, as mathematical integers.
pub open spec fn ints<const K: usize>(a: [i64; K]) -> Seq<int> {
    Seq::new(K as nat, |i: int| a[i] as int)
}

/// Whether a mathematical integer is representable as an `i64`.
pub open spec fn fits_i64(v: int) -> bool {
    i64::MIN <= v <= i64::MAX
}

/// `init + sum_{j < k} w[j] * x[j]`.
pub open spec fn dot_from(init: int, w: Seq<int>, x: Seq<int>, k: int) -> int
    decreases k,
{
    if k <= 0 {
        init
    } else {
        dot_from(init, w, x, k - 1) + w[k - 1] * x[k - 1]
    }
}

/// Every product `w[j] * x[j]` and every running sum `init + ...` up to `k` fits in an `i64`,
/// so an `i64` accumulator computes the sum without overflow.
pub open spec fn dot_fits(init: int, w: Seq<int>, x: Seq<int>, k: int) -> bool {
    forall|j: int|
        0 <= j < k ==> fits_i64(#[trigger] (w[j] * x[j])) && fits_i64(dot_from(init, w, x, j + 1))
}

/// Term `c` of a dot product.
pub open spec fn dot_term(w: Seq<int>, x: Seq<int>, c: int) -> int {
    w[c] * x[c]
}

/// Terms with zero weight add nothing: `dot_from(init, w, x, b) == dot_from(init, w, x, a)` when
/// every weight in `[a, b)` is zero.
pub proof fn lemma_dot_zero_weights(init: int, w: Seq<int>, x: Seq<int>, a: int, b: int)
    requires
        0 <= a <= b,
        forall|c: int| a <= c < b ==> #[trigger] w[c] == 0,
    ensures
        dot_from(init, w, x, b) == dot_from(init, w, x, a),
    decreases b - a,
{
    if b > a {
        lemma_dot_zero_weights(init, w, x, a, b - 1);
        assert(w[b - 1] == 0);
        assert(w[b - 1] * x[b - 1] == 0);
    }
}

/// Two segments of `len` terms that agree term by term, `[a1, a1 + len)` of one dot product and
/// `[a2, a2 + len)` of another, add the same amount.
pub proof fn lemma_dot_segments_agree(
    i1: int,
    w1: Seq<int>,
    x1: Seq<int>,
    a1: int,
    i2: int,
    w2: Seq<int>,
    x2: Seq<int>,
    a2: int,
    len: int,
)
    requires
        0 <= a1,
        0 <= a2,
        0 <= len,
        forall|c: int| a1 <= c < a1 + len ==> #[trigger] dot_term(w1, x1, c) == dot_term(w2, x2, c - a1 + a2),
    ensures
        dot_from(i1, w1, x1, a1 + len) - dot_from(i1, w1, x1, a1) == dot_from(i2, w2, x2, a2 + len) - dot_from(
            i2,
            w2,
            x2,
            a2,
        ),
    decreases len,
{
    if len > 0 {
        lemma_dot_segments_agree(i1, w1, x1, a1, i2, w2, x2, a2, len - 1);
        assert(dot_term(w1, x1, a1 + len - 1) == dot_term(w2, x2, a2 + len - 1));
    }
}

/// Accumulates `init + sum_j w[j] * x[j]` in an `i64`, or `None` when a product or a running
/// sum leaves the `i64` range.
pub fn checked_dot<const K: usize>(init: i64, w: &[i64; K], x: &[i64; K]) -> (res: Option<i64>)
    ensures
        res is Some <==> dot_fits(init as int, ints(*w), ints(*x), K as int),
        res matches Some(v) ==> v == dot_from(init as int, ints(*w), ints(*x), K as int),
{
    let mut acc: i64 = init;
    let mut c: usize = 0;
    while c < K
        invariant
            c <= K,
            dot_fits(init as int, ints(*w), ints(*x), c as int),
            acc == dot_from(init as int, ints(*w), ints(*x), c as int),
        decreases K - c,
    {
        let p = w[c].checked_mul(x[c]);
        match p {
            None => {
                assert(!fits_i64(ints(*w)[c as int] * ints(*x)[c as int]));
                return None;
            },
            Some(p) => {
                let s = acc.checked_add(p);
                match s {
                    None => {
                        assert(!fits_i64(dot_from(init as int, ints(*w), ints(*x), c + 1)));
                        return None;
                    },
                    Some(s) => {
                        acc = s;
                    },
                }
            },
        }
        c = c + 1;
    }
    Some(acc)
}

} // verus!

verus! {

/// Mathematical floor division `floor(z / scale)` for `scale > 0`, with its remainder in
/// `[0, scale)`: `z == q * scale + r`. Unlike Rust's `/`, this rounds toward negative infinity,
/// so `rescale_with_remainder(-7, 4) == (-2, 1)`.
pub fn rescale_with_remainder(z: i64, scale: i64) -> (res: (i64, i64))
    requires
        scale > 0,
    ensures
        res.0 == z as int / scale as int,
        res.1 == z as int % scale as int,
        z == res.0 * scale + res.1,
        0 <= res.1 < scale,
{
    let s: u64 = scale as u64;
    if z >= 0 {
        let a: u64 = z as u64;
        let q: u64 = a / s;
        let r: u64 = a % s;
        proof {
            vstd::arithmetic::div_mod::lemma_fundamental_div_mod(a as int, s as int);
            assert(q <= a) by {
                vstd::arithmetic::div_mod::lemma_div_is_ordered_by_denominator(a as int, 1, s as int);
            }
            vstd::arithmetic::div_mod::lemma_fundamental_div_mod_converse(
                z as int,
                scale as int,
                q as int,
                r as int,
            );
        }
        (q as i64, r as i64)
    } else {
        let a: u64 = (0i128 - (z as i128)) as u64;
        let qa: u64 = a / s;
        let ra: u64 = a % s;
        proof {
            vstd::arithmetic::div_mod::lemma_fundamental_div_mod(a as int, s as int);
            assert(qa <= a) by {
                vstd::arithmetic::div_mod::lemma_div_is_ordered_by_denominator(a as int, 1, s as int);
            }
        }
        if ra == 0 {
            let q: i64 = (0i128 - (qa as i128)) as i64;
            proof {
                assert(z as int == q * scale + 0) by (nonlinear_arith)
                    requires
                        a == s * qa + ra,
                        ra == 0,
                        z == -(a as int),
                        q == -(qa as int),
                        s == scale,
                ;
                vstd::arithmetic::div_mod::lemma_fundamental_div_mod_converse(
                    z as int,
                    scale as int,
                    q as int,
                    0,
                );
            }
            (q, 0)
        } else {
            assert(qa <= s * qa) by (nonlinear_arith)
                requires
                    s >= 1,
            ;
            let q: i64 = (0i128 - (qa as i128) - 1) as i64;
            let r: i64 = (s - ra) as i64;
            proof {
                assert(z as int == q * scale + r) by (nonlinear_arith)
                    requires
                        a == s * qa + ra,
                        z == -(a as int),
                        q == -(qa as int) - 1,
                        r == s - ra,
                        s == scale,
                ;
                vstd::arithmetic::div_mod::lemma_fundamental_div_mod_converse(
                    z as int,
                    scale as int,
                    q as int,
                    r as int,
                );
            }
            (q, r)
        }
    }
}

/// `floor(z / scale)` for `scale > 0`.
pub fn floor_rescale(z: i64, scale: i64) -> (q: i64)
    requires
        scale > 0,
    ensures
        q == z as int / scale as int,
{
    rescale_with_remainder(z, scale).0
}

} // verus!

verus! {

use crate::activations::ClippedReluLookupTable;

/// Fixed-point parameters shared by the fixed-point models: the scale `S`, the signed range of
/// state-like values, the range of rescale quotients, the domain of the clipped-ReLU table and
/// its clip bound.
#[derive(Clone, Copy, Debug, PartialEq, Eq)]
pub struct FixedPointConfig {
    pub scale: i64,
    pub value_min: i64,
    pub value_max: i64,
    pub quotient_min: i64,
    pub quotient_max: i64,
    pub relu_min: i64,
    pub relu_max: i64,
    pub clip_max: i64,
}

impl FixedPointConfig {
    pub open spec fn table_spec(&self) -> ClippedReluLookupTable {
        ClippedReluLookupTable { min: self.relu_min, max: self.relu_max, clip_max: self.clip_max }
    }

    /// The clipped-ReLU lookup table over `[relu_min, relu_max]` clipping at `clip_max`.
    pub fn clipped_relu_table(&self) -> (t: ClippedReluLookupTable)
        ensures
            t == self.table_spec(),
    {
        ClippedReluLookupTable { min: self.relu_min, max: self.relu_max, clip_max: self.clip_max }
    }

    pub open spec fn in_value_range(&self, v: int) -> bool {
        self.value_min <= v <= self.value_max
    }

    pub open spec fn in_quotient_range(&self, v: int) -> bool {
        self.quotient_min <= v <= self.quotient_max
    }
}

} // verus!
