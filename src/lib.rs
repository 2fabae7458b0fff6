//! The canvas and tool engine of a small raster-paint program: placed shapes,
//! hit-testing, the toolbar and the per-tool algorithms that turn pointer
//! input into changes of the canvas.
//!
//! Coordinates are fixed-point integers in hundredths of a screen unit, so
//! every rule of the engine is exact integer arithmetic.

pub mod geometry;
pub mod color;
pub mod shape;
pub mod world;
pub mod toolbar;
pub mod tools;
pub mod session;
