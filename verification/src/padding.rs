use vstd::prelude::*;

verus! {

/// `s` followed by zeros up to length `max`.
pub open spec fn padded_vector(s: Seq<i64>, max: nat) -> Seq<i64> {
    Seq::new(max, |i: int| if i < s.len() { s[i] } else { 0 })
}

/// Every entry of `s` from index `real` on is zero.
pub open spec fn zero_padded(s: Seq<i64>, real_len: nat) -> bool {
    forall|i: int| real_len as int <= i < s.len() ==> #[trigger] s[i] == 0
}

/// A nonzero entry found where padding must be zero.
#[derive(Clone, Copy, Debug, PartialEq, Eq)]
pub enum PaddingError {
    /// Vector entry `index` holds `value != 0`.
    NonZeroVectorEntry { index: usize, value: i64 },
    /// Matrix entry `(row, col)` holds `value != 0`.
    NonZeroMatrixEntry { row: usize, col: usize, value: i64 },
}

/// Embeds a real vector into the first `REAL` entries of a `MAX`-vector; the rest are zero.
pub fn pad_vector_i64<const REAL: usize, const MAX: usize>(input: [i64; REAL]) -> (out: [i64; MAX])
    requires
        REAL <= MAX,
    ensures
        out@ == padded_vector(input@, MAX as nat),
{
    let mut out = [0i64; MAX];
    let mut i: usize = 0;
    while i < REAL
        invariant
            i <= REAL <= MAX,
            forall|k: int| 0 <= k < i ==> out[k] == input[k],
            forall|k: int| i <= k < MAX ==> out[k] == 0,
        decreases REAL - i,
    {
        out[i] = input[i];
        i = i + 1;
    }
    assert(out@ =~= padded_vector(input@, MAX as nat));
    out
}

/// Checks that every entry from index `REAL` on is zero; on failure names the first nonzero
/// entry. A failed check is returned as `Err` instead of aborting the program; the `Ok` case is exactly
/// the input on which the check passes.
pub fn assert_zero_padding_vector<const REAL: usize, const MAX: usize>(padded: &[i64; MAX]) -> (res: Result<(), PaddingError>)
    requires
        REAL <= MAX,
    ensures
        res is Ok <==> zero_padded(padded@, REAL as nat),
        res matches Err(PaddingError::NonZeroVectorEntry { index, value }) ==> {
            &&& REAL <= index < MAX
            &&& value == padded[index as int]
            &&& value != 0
            &&& forall|i: int| REAL <= i < index ==> padded[i] == 0
        },
        res is Err ==> res->Err_0 is NonZeroVectorEntry,
{
    let mut i: usize = REAL;
    while i < MAX
        invariant
            REAL <= i <= MAX,
            forall|k: int| REAL <= k < i ==> padded[k] == 0,
        decreases MAX - i,
    {
        if padded[i] != 0 {
            return Err(PaddingError::NonZeroVectorEntry { index: i, value: padded[i] });
        }
        i = i + 1;
    }
    Ok(())
}

/// The first `REAL` entries of a padded vector.
pub fn slice_real_vector<const REAL: usize, const MAX: usize>(padded: &[i64; MAX]) -> (out: [i64; REAL])
    requires
        REAL <= MAX,
    ensures
        out@ == padded@.take(REAL as int),
{
    let mut out = [0i64; REAL];
    let mut i: usize = 0;
    while i < REAL
        invariant
            i <= REAL <= MAX,
            forall|k: int| 0 <= k < i ==> out[k] == padded[k],
        decreases REAL - i,
    {
        out[i] = padded[i];
        i = i + 1;
    }
    assert(out@ =~= padded@.take(REAL as int));
    out
}

/// Entry `(r, c)` of the `R_MAX x C_MAX` embedding of an `R_REAL x C_REAL` matrix.
pub open spec fn padded_matrix_entry<const R_REAL: usize, const C_REAL: usize>(
    input: [[i64; C_REAL]; R_REAL],
    r: int,
    c: int,
) -> i64 {
    if r < R_REAL && c < C_REAL {
        input[r][c]
    } else {
        0
    }
}

/// Embeds an `R_REAL x C_REAL` matrix into the top-left corner of an `R_MAX x C_MAX` matrix.
pub fn pad_matrix_i64<const R_REAL: usize, const C_REAL: usize, const R_MAX: usize, const C_MAX: usize>(
    input: [[i64; C_REAL]; R_REAL],
) -> (out: [[i64; C_MAX]; R_MAX])
    requires
        R_REAL <= R_MAX,
        C_REAL <= C_MAX,
    ensures
        forall|r: int, c: int|
            0 <= r < R_MAX && 0 <= c < C_MAX ==> #[trigger] out[r][c] == padded_matrix_entry(input, r, c),
{
    let mut out = [[0i64; C_MAX]; R_MAX];
    let mut r: usize = 0;
    while r < R_REAL
        invariant
            r <= R_REAL <= R_MAX,
            C_REAL <= C_MAX,
            forall|i: int, c: int|
                0 <= i < R_MAX && 0 <= c < C_MAX ==> #[trigger] out[i][c] == if i < r && c < C_REAL {
                    input[i][c]
                } else {
                    0
                },
        decreases R_REAL - r,
    {
        let row = pad_vector_i64::<C_REAL, C_MAX>(input[r]);
        out[r] = row;
        r = r + 1;
    }
    out
}

/// Every entry outside the top-left `R_REAL x C_REAL` corner is zero.
pub open spec fn zero_padded_matrix<const R_MAX: usize, const C_MAX: usize>(
    m: [[i64; C_MAX]; R_MAX],
    r_real: int,
    c_real: int,
) -> bool {
    forall|r: int, c: int|
        0 <= r < R_MAX && 0 <= c < C_MAX && (r >= r_real || c >= c_real) ==> #[trigger] m[r][c] == 0
}

/// Checks that every entry outside the real corner is zero; on failure names the first nonzero
/// entry in row-major order. A failed check is returned as `Err` instead of aborting the program; the `Ok` case is exactly
/// the input on which the check passes.
pub fn assert_zero_padding_matrix<const R_REAL: usize, const C_REAL: usize, const R_MAX: usize, const C_MAX: usize>(
    padded: &[[i64; C_MAX]; R_MAX],
) -> (res: Result<(), PaddingError>)
    requires
        R_REAL <= R_MAX,
        C_REAL <= C_MAX,
    ensures
        res is Ok <==> zero_padded_matrix(*padded, R_REAL as int, C_REAL as int),
        res matches Err(PaddingError::NonZeroMatrixEntry { row, col, value }) ==> {
            &&& row < R_MAX && col < C_MAX
            &&& (row >= R_REAL || col >= C_REAL)
            &&& value == padded[row as int][col as int]
            &&& value != 0
            &&& forall|r: int, c: int|
                0 <= r < R_MAX && 0 <= c < C_MAX && (r >= R_REAL || c >= C_REAL) && (r < row || (r
                    == row && c < col)) ==> #[trigger] padded[r][c] == 0
        },
        res is Err ==> res->Err_0 is NonZeroMatrixEntry,
{
    let mut r: usize = 0;
    while r < R_MAX
        invariant
            r <= R_MAX,
            forall|i: int, c: int|
                0 <= i < r && 0 <= c < C_MAX && (i >= R_REAL || c >= C_REAL) ==> #[trigger] padded[i][c]
                    == 0,
        decreases R_MAX - r,
    {
        let mut c: usize = 0;
        while c < C_MAX
            invariant
                r < R_MAX,
                c <= C_MAX,
                forall|i: int, k: int|
                    0 <= i < r && 0 <= k < C_MAX && (i >= R_REAL || k >= C_REAL) ==> #[trigger] padded[i][k]
                        == 0,
                forall|k: int|
                    0 <= k < c && (r >= R_REAL || k >= C_REAL) ==> #[trigger] padded[r as int][k] == 0,
            decreases C_MAX - c,
        {
            if (r >= R_REAL || c >= C_REAL) && padded[r][c] != 0 {
                return Err(PaddingError::NonZeroMatrixEntry { row: r, col: c, value: padded[r][c] });
            }
            c = c + 1;
        }
        r = r + 1;
    }
    Ok(())
}

/// Slicing a padded vector back to its real length returns the original vector.
pub proof fn lemma_slice_of_pad_vector(s: Seq<i64>, max: nat)
    requires
        s.len() <= max,
    ensures
        padded_vector(s, max).take(s.len() as int) == s,
        padded_vector(s, max).len() == max,
{
    assert(padded_vector(s, max).take(s.len() as int) =~= s);
}

/// A padded vector has zero padding.
pub proof fn lemma_pad_vector_zero_padded(s: Seq<i64>, max: nat)
    requires
        s.len() <= max,
    ensures
        zero_padded(padded_vector(s, max), s.len()),
{
}

/// A vector with zero padding is the padding of its real prefix.
pub proof fn lemma_zero_padded_is_padded_prefix(p: Seq<i64>, real_len: nat)
    requires
        real_len <= p.len(),
        zero_padded(p, real_len),
    ensures
        padded_vector(p.take(real_len as int), p.len()) == p,
{
    assert(padded_vector(p.take(real_len as int), p.len()) =~= p);
}

/// A padded matrix has zero padding outside the real corner.
pub proof fn lemma_pad_matrix_zero_padded<const R_REAL: usize, const C_REAL: usize, const R_MAX: usize, const C_MAX: usize>(
    input: [[i64; C_REAL]; R_REAL],
    out: [[i64; C_MAX]; R_MAX],
)
    requires
        forall|r: int, c: int|
            0 <= r < R_MAX && 0 <= c < C_MAX ==> #[trigger] out[r][c] == padded_matrix_entry(input, r, c),
    ensures
        zero_padded_matrix(out, R_REAL as int, C_REAL as int),
{
}

} // verus!

verus! {

/// Matrix padding keeps every real entry in place and puts zero everywhere else.
pub proof fn lemma_padded_matrix_entry_law<const R_REAL: usize, const C_REAL: usize>(
    input: [[i64; C_REAL]; R_REAL],
    r: int,
    c: int,
)
    requires
        0 <= r,
        0 <= c,
    ensures
        r < R_REAL && c < C_REAL ==> padded_matrix_entry(input, r, c) == input[r][c],
        r >= R_REAL || c >= C_REAL ==> padded_matrix_entry(input, r, c) == 0,
{
}

} // verus!
