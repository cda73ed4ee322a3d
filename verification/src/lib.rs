//! A CPU-only software rasterizer core: it turns a 3D triangle (three
//! model-space points plus a solid color) or a 2D line segment into writes
//! into an in-memory pixel buffer, after applying a camera projection and a
//! viewport mapping.
//!
//! All geometry is carried in a fixed-point scalar type, so that every
//! numeric step of the pipeline has an exact, machine-checked contract.

pub mod fixed;
pub mod math;
pub mod camera;
pub mod image;
pub mod clip;
pub mod scanline;
pub mod renderer;

pub use clip::cohen_sutherland_line_clip;
pub use renderer::Renderer;
