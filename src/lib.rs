pub mod error;
pub mod geometry;
pub mod plot;
pub mod render;
pub mod setup;
