//! Core of an interactive escape-time fractal viewer: the viewport
//! animation state machine and the GPU data-synchronization pipeline.
//!
//! Wheel and drag events move a camera's zoom and pan targets; a
//! fixed-weight easing tick walks the current values toward them while a
//! scheduler keeps a bounded redraw cadence alive and cancels it exactly
//! once on convergence.  Each frame, the camera and the configuration
//! snapshot are packed into a fixed-layout uniform block and a flat
//! palette buffer for the shader, with sizes validated before any upload.
//!
//! The embedder owns windowing and the GPU; this crate holds the
//! decisions and the data layout, stated in contracts and verified.

pub mod camera;
pub mod controls;
pub mod fixed;
pub mod frame;
pub mod scene;
pub mod scheduler;
