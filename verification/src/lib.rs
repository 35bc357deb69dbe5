//! A frame lifecycle manager for a single-triangle renderer.
//!
//! The library models the state a renderer carries across frames — device
//! context, swapchain, framebuffer cache, and the pending synchronization
//! token — and verifies the decisions made each frame: when the swapchain is
//! stale, when the framebuffer cache must be rebuilt, which conditions are
//! transient and which are fatal, and how consecutive submissions are ordered.
//! A host drives the manager: it performs each returned action against the
//! real graphics API and windowing system and reports the outcome back.

pub mod device;
pub mod frame;
pub mod geometry;
pub mod laws;
pub mod manager;
pub mod swapchain;
