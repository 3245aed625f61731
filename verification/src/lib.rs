pub mod bitrow;
pub mod engine;
pub mod laws;
pub mod model;
pub mod render;
pub mod rule;
pub mod sink;
