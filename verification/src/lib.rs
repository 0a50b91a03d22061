//! A verified model of a swapchain-backed frame-presentation loop.
//!
//! The library tracks surface validity (`VALID`/`STALE`), derives per-surface
//! frame resources from the current window dimensions, models the chain of
//! completion signals that orders frame submission, and collects triangle
//! index lists from a parsed mesh.

pub mod laws;
pub mod mesh;
pub mod presentation;
pub mod resources;
pub mod signal;
