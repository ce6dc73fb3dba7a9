//! A verified core for a minimal OpenGL triangle demo.
//!
//! The library holds the decision logic of the demo: asset path
//! resolution, shader source validation, the compile/link outcome
//! decisions, the per-frame render plan, and the vertex byte layout.
//! The graphics driver and the windowing layer are driven by an
//! unverified embedder that performs each command the library emits
//! and hands the driver's replies back as plain values.

pub mod render_gl;
pub mod render_loop;
pub mod resources;
pub mod session;
pub mod vertex_layout;
