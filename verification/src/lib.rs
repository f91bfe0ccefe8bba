//! Verified control logic of a real-time black hole renderer: preset
//! stepping, temporal accumulation bookkeeping, Halton jitter, texture and
//! workgroup sizing, spacetime-grid topology, disk parameter adjustment,
//! skybox cycling, scene ordering and render-node state, kept apart from the
//! engine, GPU and floating-point code that drives them.

pub mod disk;
pub mod frames;
pub mod grid;
pub mod halton;
pub mod presets;
pub mod render;
pub mod scene;
pub mod skybox;
pub mod textures;
