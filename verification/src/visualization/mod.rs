pub mod export;
pub mod schema;
