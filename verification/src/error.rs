use vstd::prelude::*;

verus! {

/// A trace could not be generated: some value left the range that the fixed-point
/// configuration, the activation lookup table or `i64` arithmetic admits, or a coordinate of
/// dimension padding, where only zero is admitted, held another value.
#[derive(Clone, Copy, Debug, PartialEq, Eq)]
pub enum TraceError {
    OutOfRange,
}

} // verus!
