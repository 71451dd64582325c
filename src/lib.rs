//! Core of a telemetry-driven rocket flight viewer: mesh and bitmap decoding,
//! telemetry playback, level-of-detail selection, per-frame scene planning and
//! the render-loop state machine. Floating-point math and GPU calls are left to
//! the embedding; everything here works on exact integers.
pub mod error;
pub mod image;
pub mod lod;
pub mod gpu;
pub mod mesh;
pub mod render_loop;
pub mod scene;
pub mod telemetry;
