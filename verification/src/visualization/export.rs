use vstd::prelude::*;

use crate::visualization::schema::NovaStepView;

verus! {

/// The row-major `height x width` grid of a flat vector.
pub open spec fn reshape_spec(flat: Seq<i64>, height: int, width: int) -> Seq<Seq<i64>> {
    Seq::new(height as nat, |row: int| Seq::new(width as nat, |col: int| flat[row * width + col]))
}

/// Splits a flat row-major vector into `height` rows of `width` entries.
pub fn reshape_flat_to_matrix(flat: &[i64], height: usize, width: usize) -> (m: Vec<Vec<i64>>)
    requires
        flat@.len() == height * width,
    ensures
        m@.len() == height,
        forall|row: int| 0 <= row < height ==> (#[trigger] m@[row])@ == reshape_spec(flat@, height as int, width as int)[row],
{
    let total: usize = flat.len();
    let mut m: Vec<Vec<i64>> = Vec::new();
    let mut row: usize = 0;
    while row < height
        invariant
            row <= height,
            flat@.len() == height * width,
            total == height * width,
            m@.len() == row,
            forall|r: int| 0 <= r < row ==> (#[trigger] m@[r])@ == reshape_spec(flat@, height as int, width as int)[r],
        decreases height - row,
    {
        proof {
            assert(row * width + width <= height * width) by (nonlinear_arith)
                requires
                    row < height,
            ;
        }
        let mut line: Vec<i64> = Vec::new();
        let mut col: usize = 0;
        while col < width
            invariant
                row < height,
                col <= width,
                flat@.len() == height * width,
                total == height * width,
                row * width + width <= height * width,
                line@.len() == col,
                forall|c: int| 0 <= c < col ==> #[trigger] line@[c] == flat@[row * width + c],
            decreases width - col,
        {
            line.push(flat[row * width + col]);
            col = col + 1;
        }
        assert(line@ =~= reshape_spec(flat@, height as int, width as int)[row as int]);
        m.push(line);
        row = row + 1;
    }
    m
}

/// Every entry of the flat vector sits in the grid at `(i / width, i % width)`.
pub proof fn lemma_reshape_covers(flat: Seq<i64>, height: int, width: int, i: int)
    requires
        0 <= height,
        flat.len() == height * width,
        0 <= i < flat.len(),
    ensures
        0 <= i / width < height,
        0 <= i % width < width,
        reshape_spec(flat, height, width)[i / width][i % width] == flat[i],
{
    crate::models::denoise_conv::lemma_grid_index(i, height, width);
}

/// Decimal digit `d < 10` as a character.
pub open spec fn digit_char(d: int) -> char {
    (48 + d) as char
}

/// Decimal representation of `n`, without leading zeros.
pub open spec fn decimal(n: nat) -> Seq<char>
    decreases n,
{
    if n < 10 {
        seq![digit_char(n as int)]
    } else {
        decimal(n / 10).push(digit_char((n % 10) as int))
    }
}

/// `"Nova step {index}: x_{start} -> x_{end}"`.
pub open spec fn nova_step_label_spec(index: nat, start: nat, end: nat) -> Seq<char> {
    "Nova step "@ + decimal(index) + ": x_"@ + decimal(start) + " -> x_"@ + decimal(end)
}

/// Formats the label of a recursive step with std's `format!`, whose `{}` writes a `usize` in
/// decimal without leading zeros.
#[verifier::external_body]
fn format_nova_step_label(index: usize, start: usize, end: usize) -> (label: String)
    ensures
        label@ == nova_step_label_spec(index as nat, start as nat, end as nat),
{
    format!("Nova step {index}: x_{start} -> x_{end}")
}

/// First iteration folded into recursive step `i` when each step folds `k` iterations.
pub open spec fn nova_iter_start(i: int, k: int) -> int {
    i * k
}

/// Last iteration folded into recursive step `i`.
pub open spec fn nova_iter_end(i: int, k: int) -> int {
    i * k + k - 1
}

/// One view per recursive step: step `i` folds iterations `[i*k, i*k + k - 1]`, taking
/// `x_{i*k}` to `x_{(i+1)*k}`.
pub fn build_nova_step_views(num_steps: usize, num_iters_per_step: usize) -> (views: Vec<NovaStepView>)
    requires
        num_steps > 0 ==> num_iters_per_step >= 1,
        num_steps * num_iters_per_step <= usize::MAX,
    ensures
        views@.len() == num_steps,
        forall|i: int|
            0 <= i < num_steps ==> {
                &&& (#[trigger] views@[i]).nova_step_index == i
                &&& views@[i].iter_start == nova_iter_start(i, num_iters_per_step as int)
                &&& views@[i].iter_end == nova_iter_end(i, num_iters_per_step as int)
                &&& views@[i].label@ == nova_step_label_spec(
                    i as nat,
                    nova_iter_start(i, num_iters_per_step as int) as nat,
                    (nova_iter_end(i, num_iters_per_step as int) + 1) as nat,
                )
            },
{
    let k = num_iters_per_step;
    let mut views: Vec<NovaStepView> = Vec::new();
    let mut i: usize = 0;
    while i < num_steps
        invariant
            i <= num_steps,
            k == num_iters_per_step,
            num_steps > 0 ==> k >= 1,
            num_steps * k <= usize::MAX,
            views@.len() == i,
            forall|j: int|
                0 <= j < i ==> {
                    &&& (#[trigger] views@[j]).nova_step_index == j
                    &&& views@[j].iter_start == nova_iter_start(j, k as int)
                    &&& views@[j].iter_end == nova_iter_end(j, k as int)
                    &&& views@[j].label@ == nova_step_label_spec(
                        j as nat,
                        nova_iter_start(j, k as int) as nat,
                        (nova_iter_end(j, k as int) + 1) as nat,
                    )
                },
        decreases num_steps - i,
    {
        proof {
            assert(i * k + k <= num_steps * k) by (nonlinear_arith)
                requires
                    i < num_steps,
            ;
        }
        let iter_start = i * k;
        let iter_end = iter_start + k - 1;
        let label = format_nova_step_label(i, iter_start, iter_end + 1);
        views.push(NovaStepView { nova_step_index: i, iter_start, iter_end, label });
        i = i + 1;
    }
    views
}

/// The recursive steps fold consecutive, disjoint blocks of `k` iterations that together
/// cover iterations `[0, num_steps * k)`: step `0` starts at `x_0`, each step ends where the
/// next starts, and the last one ends at `x_{num_steps * k}`.
pub proof fn lemma_nova_steps_partition(num_steps: int, k: int, i: int)
    requires
        0 <= i < num_steps,
        k >= 1,
    ensures
        nova_iter_start(0, k) == 0,
        nova_iter_end(i, k) - nova_iter_start(i, k) + 1 == k,
        nova_iter_end(i, k) + 1 == nova_iter_start(i + 1, k),
        nova_iter_end(num_steps - 1, k) + 1 == num_steps * k,
        0 <= nova_iter_start(i, k) <= nova_iter_end(i, k) < num_steps * k,
{
    assert((i + 1) * k == i * k + k && (num_steps - 1) * k + k == num_steps * k && 0 <= i * k && i * k + k <= num_steps * k)
        by (nonlinear_arith)
        requires
            0 <= i < num_steps,
            k >= 1,
    ;
}

} // verus!
