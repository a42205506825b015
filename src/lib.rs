//! Procedural line-art pictures: random grid masks and colours rendered as SVG.
mod text;
pub mod color;
pub mod grid;
pub mod sample;
pub mod render;
pub mod document;
pub mod digest;
pub mod generate;
