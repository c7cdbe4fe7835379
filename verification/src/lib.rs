//! A verified scene-graph core for a small real-time renderer.
//!
//! The library owns the hierarchical transform tree, the generational
//! resource arena behind stable handles, scene camera discovery, and the
//! per-frame traversal that turns a scene into an ordered list of uniform
//! updates and draw commands. Matrix and vector arithmetic is delegated to
//! `glam` through a small set of trusted wrappers; everything the backend
//! executes (buffers, pipelines, windowing) lives outside this crate and
//! consumes the command list the traversal produces.

pub mod arena;
pub mod camera;
pub mod material;
pub mod math;
pub mod model;
pub mod object;
pub mod physics;
pub mod renderer;
pub mod scene;
