//! Gameplay core of a side-scrolling platformer: a character driven by a
//! six-state machine, discrete-time gravity with a hard floor clamp,
//! axis-aligned bounding-box collision with state-dependent resolution,
//! and a procedural obstacle-segment generator with a lookahead watermark.
//!
//! Rendering, asset loading, audio and input capture are external
//! collaborators; the library only computes rectangles, states and events.

pub mod engine;
pub mod game;
pub mod obstacles;
pub mod segments;
pub mod session;
