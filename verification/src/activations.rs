use vstd::prelude::*;

verus! {

/// Lookup table for the plain ReLU `max(0, v)` over the integer domain `[min, max]`.
#[derive(Clone, Copy, Debug, PartialEq, Eq)]
pub struct ReluLookupTable {
    pub min: i64,
    pub max: i64,
}

/// Lookup table for the clipped ReLU `min(max(0, v), clip_max)` over the domain `[min, max]`.
#[derive(Clone, Copy, Debug, PartialEq, Eq)]
pub struct ClippedReluLookupTable {
    pub min: i64,
    pub max: i64,
    pub clip_max: i64,
}

/// `max(0, v)`.
pub open spec fn relu_spec(v: int) -> int {
    if v < 0 {
        0
    } else {
        v
    }
}

/// `min(max(0, v), clip_max)`.
pub open spec fn clipped_relu_spec(v: int, clip_max: int) -> int {
    let r = relu_spec(v);
    if r < clip_max {
        r
    } else {
        clip_max
    }
}

impl ReluLookupTable {
    pub open spec fn contains_spec(&self, v: int) -> bool {
        self.min <= v <= self.max
    }

    /// Whether `v` lies in the table's domain.
    pub fn contains(&self, v: i64) -> (res: bool)
        ensures
            res == self.contains_spec(v as int),
    {
        self.min <= v && v <= self.max
    }

    /// `max(0, v)`.
    pub fn relu(&self, v: i64) -> (res: i64)
        ensures
            res == relu_spec(v as int),
    {
        if v < 0 {
            0
        } else {
            v
        }
    }
}

impl ClippedReluLookupTable {
    pub open spec fn contains_spec(&self, v: int) -> bool {
        self.min <= v <= self.max
    }

    /// Whether `v` lies in the table's domain.
    pub fn contains(&self, v: i64) -> (res: bool)
        ensures
            res == self.contains_spec(v as int),
    {
        self.min <= v && v <= self.max
    }

    /// `min(max(0, v), clip_max)`.
    pub fn clipped_relu(&self, v: i64) -> (res: i64)
        ensures
            res == clipped_relu_spec(v as int, self.clip_max as int),
    {
        let r = if v < 0 {
            0
        } else {
            v
        };
        if r < self.clip_max {
            r
        } else {
            self.clip_max
        }
    }
}

/// A clipped ReLU output never exceeds `clip_max`, and is never negative when `clip_max` is
/// not: activations stay in `[0, clip_max]`.
pub proof fn lemma_clipped_relu_bounded(v: int, clip_max: int)
    requires
        clip_max >= 0,
    ensures
        0 <= clipped_relu_spec(v, clip_max) <= clip_max,
        0 <= v <= clip_max ==> clipped_relu_spec(v, clip_max) == v,
{
}

} // verus!

verus! {

/// ReLU is never negative, never below its input, and is either its input or zero.
pub proof fn lemma_relu_law(v: int)
    ensures
        relu_spec(v) >= 0,
        relu_spec(v) >= v,
        relu_spec(v) == v || relu_spec(v) == 0,
{
}

} // verus!
