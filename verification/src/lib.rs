use vstd::prelude::*;

pub mod activations;
pub mod affine;
pub mod error;
pub mod fixed_point;
pub mod layers;
pub mod matrix;
pub mod models;
pub mod padding;
pub mod public_state;
pub mod steps;
pub mod visualization;

verus! {
} // verus!
