//! Procedural mesh geometry and frame-by-frame animation for a radial HUD
//! widget: concentric rings, pulsing glow rings, and a filled circle, driven
//! by a small oscillating state machine.
//!
//! Every scalar quantity (radii, colors, trigonometric samples, animation
//! phase) is held in a fixed-point micro-unit scale, so that every geometric
//! statement in the contracts is exact.

pub mod animation;
pub mod fixed;
pub mod frame;
pub mod index_generator;
pub mod vertex_generator;
