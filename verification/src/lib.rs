//! Celebration engine for a developer tool's lifecycle hooks.
//!
//! Each hook fires a structured event; this library decides whether and how
//! intensely to celebrate, mutates persistent progression state (experience
//! points, levels, commit streaks, achievements), and leaves the side effects
//! (terminal animation, sound playback, socket handling) to the surrounding
//! process.

use vstd::prelude::*;

pub mod achievements;
pub mod audio;
pub mod celebration;
pub mod clock;
pub mod config;
pub mod event;
pub mod processor;
pub mod render;
pub mod session;
pub mod state;
pub mod statejson;
pub mod text;
pub mod wav;

verus! {

/// Milliseconds that must pass after a completed render before the next one.
pub const RENDER_COOLDOWN_MS: u64 = 5000;

} // verus!
