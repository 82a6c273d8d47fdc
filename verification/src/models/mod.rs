pub mod affine_lookup;
pub mod denoise_conv;
pub mod denoise_fixed_point;
pub mod denoise_padded;
pub mod denoise_time_embedding;
pub mod denoise_update;
pub mod mlp_clipped_relu;
pub mod mlp_fixed_point;
pub mod two_layer;
