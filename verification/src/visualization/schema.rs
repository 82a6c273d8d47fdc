use vstd::prelude::*;

verus! {

/// Title and description of an exported demo.
#[derive(Clone, Debug)]
pub struct DemoMetadata {
    pub title: String,
    pub backend: String,
    pub update_mode: String,
    pub description: String,
}

/// Shapes and fixed-point settings of an exported demo.
#[derive(Clone, Debug)]
pub struct DemoConfig {
    pub scale: i64,
    pub total_iters: usize,
    pub num_steps: usize,
    pub num_iters_per_step: usize,
    pub state_height: usize,
    pub state_width: usize,
    pub time_embedding_dim: usize,
    pub lookup_range: String,
    pub clip_max: i64,
}

/// One denoise iteration, its state, predicted noise and next state as `H x W` grids.
#[derive(Clone, Debug)]
pub struct VisualStep {
    pub t: usize,
    pub x: Vec<Vec<i64>>,
    pub epsilon: Vec<Vec<i64>>,
    pub x_next: Vec<Vec<i64>>,
    pub time_embedding: Vec<i64>,
    pub alpha: i64,
    pub beta: i64,
    pub predictor: PredictorSummary,
    pub update: UpdateSummary,
}

/// Intermediate values of the noise predictor; which are present depends on the backend.
#[derive(Clone, Debug)]
pub struct PredictorSummary {
    pub backend: String,
    pub hidden: Option<Vec<i64>>,
    pub conv_raw: Option<Vec<Vec<i64>>>,
    pub conv_pre_activation: Option<Vec<Vec<i64>>>,
    pub relu_output: Option<Vec<Vec<i64>>>,
}

/// Terms of the denoise update; `fused_raw` only in the fused mode.
#[derive(Clone, Debug)]
pub struct UpdateSummary {
    pub mode: String,
    pub alpha_term: Vec<Vec<i64>>,
    pub beta_term: Vec<Vec<i64>>,
    pub fused_raw: Option<Vec<Vec<i64>>>,
    pub output: Vec<Vec<i64>>,
}

/// The iterations `[iter_start, iter_end]` folded into one recursive proof step.
#[derive(Clone, Debug)]
pub struct NovaStepView {
    pub nova_step_index: usize,
    pub iter_start: usize,
    pub iter_end: usize,
    pub label: String,
}

} // verus!
