//! The integer side of a recursive ray tracer: 8-bit colors, the background
//! texture lookup, the frame buffer of the frame driver, and the recursion
//! bound of the shading engine.
pub mod background;
pub mod color;
pub mod frame;
pub mod geometry;
pub mod scene;
pub mod shading;
