//! Core of an interactive 3D scene viewer: an index-addressed scene graph,
//! the import post-processing that guarantees a navigable camera, the
//! orbit-camera input policy, the per-event orchestration step and the
//! renderer's frame-target lifecycle.
pub mod app;
pub mod camera;
pub mod input;
pub mod render;
pub mod world;
