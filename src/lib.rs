pub mod annotator;
pub mod config;
pub mod error;
pub mod keyed;
pub mod laws;
pub mod render;
pub mod sentence;
pub mod text;
