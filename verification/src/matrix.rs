use vstd::prelude::*;

verus! {

/// Row-major flattening of an `R x C` matrix: entry `(r, c)` lands at index `r * C + c`.
pub open spec fn flat_matrix<const R: usize, const C: usize>(m: [[i64; C]; R]) -> Seq<i64> {
    Seq::new((R * C) as nat, |i: int| m[i / (C as int)][i % (C as int)])
}

/// Index `r * C + c` of the row-major flattening holds entry `(r, c)`.
pub proof fn lemma_flat_matrix_index<const R: usize, const C: usize>(
    m: [[i64; C]; R],
    r: int,
    c: int,
)
    requires
        0 <= r < R,
        0 <= c < C,
    ensures
        0 <= r * C + c < R * C,
        flat_matrix(m)[r * C + c] == m[r][c],
{
    vstd::arithmetic::div_mod::lemma_fundamental_div_mod_converse(r * C + c, C as int, r, c);
    assert(r * C + c < R * C) by (nonlinear_arith)
        requires
            0 <= r < R,
            0 <= c < C,
    ;
    assert(0 <= r * C) by (nonlinear_arith)
        requires
            0 <= r,
            0 <= C,
    ;
}

/// Appends the row-major flattening of `m` to `out`.
pub fn push_matrix_row_major<const R: usize, const C: usize>(out: &mut Vec<i64>, m: &[[i64; C]; R])
    ensures
        final(out)@ == old(out)@ + flat_matrix(*m),
{
    let ghost start = out@;
    let mut r: usize = 0;
    while r < R
        invariant
            r <= R,
            out@ =~= start + flat_matrix(*m).take(r * C),
            r * C <= R * C,
        decreases R - r,
    {
        proof {
            assert(r * C + C <= R * C) by (nonlinear_arith)
                requires
                    r < R,
            ;
        }
        let mut c: usize = 0;
        while c < C
            invariant
                r < R,
                c <= C,
                out@ =~= start + flat_matrix(*m).take(r * C + c),
                r * C + C <= R * C,
            decreases C - c,
        {
            proof {
                lemma_flat_matrix_index(*m, r as int, c as int);
                assert(flat_matrix(*m).take(r * C + c + 1) =~= flat_matrix(*m).take(r * C + c).push(
                    m[r as int][c as int],
                ));
            }
            out.push(m[r][c]);
            c = c + 1;
        }
        proof {
            assert((r + 1) * C == r * C + C) by (nonlinear_arith);
        }
        r = r + 1;
    }
    assert(flat_matrix(*m).take(R * C) =~= flat_matrix(*m));
}

} // verus!

verus! {

/// Appends the entries of `v` to `out`.
pub fn push_vector<const K: usize>(out: &mut Vec<i64>, v: &[i64; K])
    ensures
        final(out)@ == old(out)@ + v@,
{
    let ghost start = out@;
    let mut i: usize = 0;
    while i < K
        invariant
            i <= K,
            out@ =~= start + v@.take(i as int),
        decreases K - i,
    {
        assert(v@.take(i + 1) =~= v@.take(i as int).push(v[i as int]));
        out.push(v[i]);
        i = i + 1;
    }
    assert(v@.take(K as int) =~= v@);
}

} // verus!
