use vstd::prelude::*;

use std::ops::Range;

verus! {

/// Layout of the public IVC state vector:
/// `[x (n) | y (n, if has_output) | commitment (1, if has_commitment) | t (1) |
///   param blocks (total_iters * param_block_len) | time table (total_iters * time_emb_dim)]`.
#[derive(Clone, Copy, Debug, PartialEq, Eq, Structural)]
pub struct PublicStateLayout {
    pub n: usize,
    pub has_output: bool,
    pub has_commitment: bool,
    pub total_iters: usize,
    pub param_block_len: usize,
    pub time_emb_dim: usize,
}

/// A layout check that failed.
#[derive(Clone, Copy, Debug, PartialEq, Eq, Structural)]
pub enum LayoutError {
    /// The state has `got` entries where the layout has `expected`.
    StateLenMismatch { got: usize, expected: usize },
    /// Parameter block `index` does not exist: there are `total_iters` blocks.
    BlockIndexOutOfRange { index: usize, total_iters: usize },
    /// Time-table row `index` does not exist: there are `total_iters` rows.
    TimeRowIndexOutOfRange { index: usize, total_iters: usize },
}

impl PublicStateLayout {
    /// Start of the optional commitment slot, or of `t` when there is none: after `x` and `y`.
    pub open spec fn after_xy_spec(&self) -> int {
        if self.has_output {
            2 * self.n
        } else {
            self.n as int
        }
    }

    pub open spec fn t_index_spec(&self) -> int {
        self.after_xy_spec() + if self.has_commitment {
            1int
        } else {
            0int
        }
    }

    pub open spec fn params_base_spec(&self) -> int {
        self.t_index_spec() + 1
    }

    pub open spec fn params_end_spec(&self) -> int {
        self.params_base_spec() + self.total_iters * self.param_block_len
    }

    pub open spec fn time_table_base_spec(&self) -> int {
        self.params_end_spec()
    }

    pub open spec fn state_len_spec(&self) -> int {
        self.time_table_base_spec() + self.total_iters * self.time_emb_dim
    }

    /// Start of parameter block `i`.
    pub open spec fn block_start_spec(&self, i: int) -> int {
        self.params_base_spec() + i * self.param_block_len
    }

    /// Start of time-table row `i`.
    pub open spec fn row_start_spec(&self, i: int) -> int {
        self.time_table_base_spec() + i * self.time_emb_dim
    }

    /// Every offset of the layout is representable as a `usize`.
    pub open spec fn fits(&self) -> bool {
        self.state_len_spec() <= usize::MAX
    }

    /// A layout without a commitment slot.
    pub fn new(n: usize, has_output: bool, total_iters: usize, param_block_len: usize, time_emb_dim: usize) -> (l:
        Self)
        ensures
            l == (Self { n, has_output, has_commitment: false, total_iters, param_block_len, time_emb_dim }),
    {
        Self { n, has_output, has_commitment: false, total_iters, param_block_len, time_emb_dim }
    }

    /// A layout with or without a commitment slot.
    pub fn new_with_commitment(
        n: usize,
        has_output: bool,
        has_commitment: bool,
        total_iters: usize,
        param_block_len: usize,
        time_emb_dim: usize,
    ) -> (l: Self)
        ensures
            l == (Self { n, has_output, has_commitment, total_iters, param_block_len, time_emb_dim }),
    {
        Self { n, has_output, has_commitment, total_iters, param_block_len, time_emb_dim }
    }

    /// `[0, n)`.
    pub fn x_range(&self) -> (r: Range<usize>)
        ensures
            r.start == 0,
            r.end == self.n,
    {
        0..self.n
    }

    /// `[n, 2n)` when the state carries the expected output, else `None`.
    pub fn y_range(&self) -> (r: Option<Range<usize>>)
        requires
            self.has_output ==> 2 * self.n <= usize::MAX,
        ensures
            r is Some <==> self.has_output,
            r matches Some(y) ==> y.start == self.n && y.end == 2 * self.n,
    {
        if self.has_output {
            Some(self.n..2 * self.n)
        } else {
            None
        }
    }

    /// Index of the step counter `t`.
    pub fn t_index(&self) -> (i: usize)
        requires
            self.t_index_spec() <= usize::MAX,
        ensures
            i == self.t_index_spec(),
    {
        let base = if self.has_output {
            2 * self.n
        } else {
            self.n
        };
        base + if self.has_commitment {
            1usize
        } else {
            0usize
        }
    }

    /// Index of the commitment slot, right after `x` and `y`, when there is one.
    pub fn commitment_index(&self) -> (i: Option<usize>)
        requires
            self.after_xy_spec() <= usize::MAX,
        ensures
            i is Some <==> self.has_commitment,
            i matches Some(k) ==> k == self.after_xy_spec(),
    {
        if self.has_commitment {
            Some(
                if self.has_output {
                    2 * self.n
                } else {
                    self.n
                },
            )
        } else {
            None
        }
    }

    /// Index of the first parameter entry, right after `t`.
    pub fn params_base(&self) -> (i: usize)
        requires
            self.params_base_spec() <= usize::MAX,
        ensures
            i == self.params_base_spec(),
    {
        self.t_index() + 1
    }

    /// All parameter blocks: `[params_base, params_base + total_iters * param_block_len)`.
    pub fn params_range(&self) -> (r: Range<usize>)
        requires
            self.params_end_spec() <= usize::MAX,
        ensures
            r.start == self.params_base_spec(),
            r.end == self.params_end_spec(),
    {
        proof {
            lemma_mul_nonneg(self.total_iters as int, self.param_block_len as int);
        }
        let start = self.params_base();
        start..start + self.total_iters * self.param_block_len
    }

    /// Parameter block `block_idx`: `param_block_len` entries from
    /// `params_base + block_idx * param_block_len`.
    pub fn param_block_range(&self, block_idx: usize) -> (r: Range<usize>)
        requires
            block_idx < self.total_iters,
            self.params_end_spec() <= usize::MAX,
        ensures
            r.start == self.block_start_spec(block_idx as int),
            r.end == self.block_start_spec(block_idx as int) + self.param_block_len,
    {
        proof {
            lemma_mul_nonneg(self.total_iters as int, self.param_block_len as int);
            lemma_block_bound(block_idx as int, self.total_iters as int, self.param_block_len as int);
        }
        let start = self.params_base() + block_idx * self.param_block_len;
        start..start + self.param_block_len
    }

    /// Index of the first time-table entry, right after the parameter blocks.
    pub fn time_table_base(&self) -> (i: usize)
        requires
            self.params_end_spec() <= usize::MAX,
        ensures
            i == self.time_table_base_spec(),
    {
        self.params_range().end
    }

    /// The whole time table: `total_iters * time_emb_dim` entries from `time_table_base`.
    pub fn time_table_range(&self) -> (r: Range<usize>)
        requires
            self.fits(),
        ensures
            r.start == self.time_table_base_spec(),
            r.end == self.state_len_spec(),
    {
        proof {
            lemma_mul_nonneg(self.total_iters as int, self.param_block_len as int);
            lemma_mul_nonneg(self.total_iters as int, self.time_emb_dim as int);
        }
        let start = self.time_table_base();
        start..start + self.total_iters * self.time_emb_dim
    }

    /// Time-table row `row_idx`: `time_emb_dim` entries from
    /// `time_table_base + row_idx * time_emb_dim`.
    pub fn time_table_row_range(&self, row_idx: usize) -> (r: Range<usize>)
        requires
            row_idx < self.total_iters,
            self.fits(),
        ensures
            r.start == self.row_start_spec(row_idx as int),
            r.end == self.row_start_spec(row_idx as int) + self.time_emb_dim,
    {
        proof {
            lemma_mul_nonneg(self.total_iters as int, self.param_block_len as int);
            lemma_mul_nonneg(self.total_iters as int, self.time_emb_dim as int);
            lemma_block_bound(row_idx as int, self.total_iters as int, self.time_emb_dim as int);
        }
        let start = self.time_table_base() + row_idx * self.time_emb_dim;
        start..start + self.time_emb_dim
    }

    /// Length of the whole state vector.
    pub fn state_len(&self) -> (len: usize)
        requires
            self.fits(),
        ensures
            len == self.state_len_spec(),
    {
        self.time_table_range().end
    }

    /// `Ok` exactly when a state of `len` entries has this layout's length. A mismatch is
    /// returned as `Err` instead of aborting the program.
    pub fn assert_state_len(&self, len: usize) -> (res: Result<(), LayoutError>)
        requires
            self.fits(),
        ensures
            res is Ok <==> len == self.state_len_spec(),
            res matches Err(e) ==> e == (LayoutError::StateLenMismatch {
                got: len,
                expected: self.state_len_spec() as usize,
            }),
    {
        let expected = self.state_len();
        if len == expected {
            Ok(())
        } else {
            Err(LayoutError::StateLenMismatch { got: len, expected })
        }
    }

    /// `Ok` exactly when parameter block `block_idx` exists. A missing block is returned as
    /// `Err` instead of aborting the program.
    pub fn assert_block_idx(&self, block_idx: usize) -> (res: Result<(), LayoutError>)
        ensures
            res is Ok <==> block_idx < self.total_iters,
            res matches Err(e) ==> e == (LayoutError::BlockIndexOutOfRange {
                index: block_idx,
                total_iters: self.total_iters,
            }),
    {
        if block_idx < self.total_iters {
            Ok(())
        } else {
            Err(LayoutError::BlockIndexOutOfRange { index: block_idx, total_iters: self.total_iters })
        }
    }

    /// `Ok` exactly when time-table row `row_idx` exists. A missing row is returned as `Err`
    /// instead of aborting the program.
    pub fn assert_time_row_idx(&self, row_idx: usize) -> (res: Result<(), LayoutError>)
        ensures
            res is Ok <==> row_idx < self.total_iters,
            res matches Err(e) ==> e == (LayoutError::TimeRowIndexOutOfRange {
                index: row_idx,
                total_iters: self.total_iters,
            }),
    {
        if row_idx < self.total_iters {
            Ok(())
        } else {
            Err(LayoutError::TimeRowIndexOutOfRange { index: row_idx, total_iters: self.total_iters })
        }
    }
}

proof fn lemma_mul_nonneg(a: int, b: int)
    requires
        0 <= a,
        0 <= b,
    ensures
        0 <= a * b,
{
    assert(0 <= a * b) by (nonlinear_arith)
        requires
            0 <= a,
            0 <= b,
    ;
}

/// Block `i < k` of width `w` starts at `i * w >= 0` and ends at `i * w + w <= k * w`.
proof fn lemma_block_bound(i: int, k: int, w: int)
    requires
        0 <= i < k,
        0 <= w,
    ensures
        0 <= i * w,
        i * w + w <= k * w,
{
    assert(0 <= i * w && i * w + w <= k * w) by (nonlinear_arith)
        requires
            0 <= i < k,
            0 <= w,
    ;
}

/// The regions of the state follow each other without gap or overlap, in the order
/// `x | y | commitment | t | params | time table`, and the state's length is their total.
pub proof fn lemma_layout_regions_tile(l: PublicStateLayout)
    ensures
        0 <= l.n <= l.after_xy_spec() <= l.t_index_spec(),
        l.after_xy_spec() == l.n + if l.has_output {
            l.n as int
        } else {
            0int
        },
        l.t_index_spec() == l.after_xy_spec() + if l.has_commitment {
            1int
        } else {
            0int
        },
        l.params_base_spec() == l.t_index_spec() + 1,
        l.params_end_spec() == l.params_base_spec() + l.total_iters * l.param_block_len,
        l.state_len_spec() == l.params_end_spec() + l.total_iters * l.time_emb_dim,
        l.params_base_spec() <= l.params_end_spec() == l.time_table_base_spec() <= l.state_len_spec(),
        l.state_len_spec() == l.n + (if l.has_output {
            l.n as int
        } else {
            0int
        }) + (if l.has_commitment {
            1int
        } else {
            0int
        }) + 1 + l.total_iters * l.param_block_len + l.total_iters * l.time_emb_dim,
{
    lemma_mul_nonneg(l.total_iters as int, l.param_block_len as int);
    lemma_mul_nonneg(l.total_iters as int, l.time_emb_dim as int);
}

/// Parameter blocks lie in the parameter region in index order, each ending where the next
/// starts: block `0` starts the region and block `total_iters` would start right after it.
pub proof fn lemma_param_blocks_tile(l: PublicStateLayout, i: int, j: int)
    requires
        0 <= i < j <= l.total_iters,
    ensures
        l.block_start_spec(0) == l.params_base_spec(),
        l.block_start_spec(l.total_iters as int) == l.params_end_spec(),
        l.params_base_spec() <= l.block_start_spec(i),
        l.block_start_spec(i) + l.param_block_len == l.block_start_spec(i + 1),
        l.block_start_spec(i) + l.param_block_len <= l.block_start_spec(j) <= l.params_end_spec(),
{
    let w = l.param_block_len as int;
    let k = l.total_iters as int;
    assert(0 <= i * w && (i + 1) * w == i * w + w && i * w + w <= j * w && j * w <= k * w) by (nonlinear_arith)
        requires
            0 <= i < j <= k,
            0 <= w,
    ;
}

/// Time-table rows lie in the time-table region, after every parameter block, in index order,
/// each ending where the next starts: row `0` starts the region and row `total_iters` would
/// start at the end of the state.
pub proof fn lemma_time_rows_tile(l: PublicStateLayout, i: int, j: int)
    requires
        0 <= i < j <= l.total_iters,
    ensures
        l.row_start_spec(0) == l.time_table_base_spec(),
        l.row_start_spec(l.total_iters as int) == l.state_len_spec(),
        l.params_end_spec() <= l.row_start_spec(i),
        l.row_start_spec(i) + l.time_emb_dim == l.row_start_spec(i + 1),
        l.row_start_spec(i) + l.time_emb_dim <= l.row_start_spec(j) <= l.state_len_spec(),
{
    let w = l.time_emb_dim as int;
    let k = l.total_iters as int;
    assert(0 <= i * w && (i + 1) * w == i * w + w && i * w + w <= j * w && j * w <= k * w) by (nonlinear_arith)
        requires
            0 <= i < j <= k,
            0 <= w,
    ;
}

} // verus!
