//! The render cooldown guard and the XP meter arithmetic used by the
//! terminal renderer.
//!
//! The cooldown guard keeps two celebrations from interleaving their
//! terminal output; the surrounding process holds it behind a lock and
//! passes in milliseconds from its monotonic clock.

use vstd::prelude::*;
use crate::state::spec_threshold;
use crate::text::string_from_chars;
use crate::RENDER_COOLDOWN_MS;

verus! {

/// The shared record of when the last render completed.
#[derive(Debug, Clone)]
pub struct RenderGate {
    /// Milliseconds on the monotonic clock when the last render finished,
    /// if any has.
    pub last_render_ms: Option<u64>,
}

/// Whether a render may start at time `now_ms`: always, until a render
/// has completed; afterwards only once the cooldown window has passed.
pub open spec fn spec_render_allowed(g: RenderGate, now_ms: u64) -> bool {
    match g.last_render_ms {
        None => true,
        Some(t) => now_ms >= t + RENDER_COOLDOWN_MS,
    }
}

impl RenderGate {
    /// A guard that has seen no render yet.
    pub fn new() -> (r: Self)
        ensures
            r.last_render_ms is None,
    {
        RenderGate { last_render_ms: None }
    }

    /// Whether a render may start now. Callers that receive `true` run the
    /// render and then call `finish_render`; on `false` the celebration's
    /// side effects are skipped entirely.
    pub fn acquire_render_slot(&mut self, now_ms: u64) -> (r: bool)
        ensures
            r == spec_render_allowed(*old(self), now_ms),
            *final(self) == *old(self),
    {
        match self.last_render_ms {
            None => true,
            Some(t) => now_ms >= t && now_ms - t >= RENDER_COOLDOWN_MS,
        }
    }

    /// Record that a render completed at time `now_ms`.
    pub fn finish_render(&mut self, now_ms: u64)
        ensures
            final(self).last_render_ms == Some(now_ms),
    {
        self.last_render_ms = Some(now_ms);
    }
}

/// The XP threshold for the level-table entry at `index`, `u32::MAX` past
/// the last defined level.
pub fn level_threshold(index: usize) -> (r: u32)
    ensures
        r == spec_threshold(index as int),
{
    match index {
        0 => 0,
        1 => 100,
        2 => 500,
        3 => 1500,
        4 => 5000,
        5 => 10000,
        6 => 20000,
        7 => 35000,
        8 => 50000,
        9 => 75000,
        _ => u32::MAX,
    }
}

/// XP earned within the current level.
pub open spec fn spec_xp_in_level(level: u32, xp: u32) -> u32 {
    let prev = spec_threshold(if level == 0 { 0int } else { level - 1 });
    if xp >= prev {
        (xp - prev) as u32
    } else {
        0
    }
}

/// Total XP span of the current level.
pub open spec fn spec_xp_needed(level: u32) -> u32 {
    let prev = spec_threshold(if level == 0 { 0int } else { level - 1 });
    let next = spec_threshold(level as int);
    if next >= prev {
        (next - prev) as u32
    } else {
        0
    }
}

/// `(xp_in_level, xp_needed_for_level)` for the given level and XP total:
/// how far into the current level the player is, and how wide that level
/// is. The meter and the stats view both use this, so the two always agree.
pub fn xp_progress(level: u32, xp: u32) -> (r: (u32, u32))
    ensures
        r.0 == spec_xp_in_level(level, xp),
        r.1 == spec_xp_needed(level),
{
    let current_idx: usize = if level == 0 {
        0
    } else {
        (level - 1) as usize
    };
    let prev_threshold = level_threshold(current_idx);
    let next_threshold = level_threshold(level as usize);
    let xp_in_level = if xp >= prev_threshold {
        xp - prev_threshold
    } else {
        0
    };
    let xp_needed = if next_threshold >= prev_threshold {
        next_threshold - prev_threshold
    } else {
        0
    };
    (xp_in_level, xp_needed)
}

/// How many of `width` bar cells are filled: `current/next` of the width,
/// rounded to the nearest cell, and the whole bar once `next` is zero.
pub open spec fn spec_bar_filled(current: u32, next: u32, width: int) -> int {
    if next == 0 {
        width
    } else {
        let exact = (2 * (current * width) + next) / (2 * next);
        if exact <= width {
            exact
        } else {
            width
        }
    }
}

/// Render an XP bar of `width` cells, the first `spec_bar_filled` of them
/// full blocks and the rest light shade.
pub fn xp_bar_string(current_xp: u32, next_xp: u32, width: usize) -> (r: String)
    requires
        width <= 100000,
    ensures
        r@.len() == width,
        forall|i: int|
            0 <= i < width ==> r@[i] == (if i < spec_bar_filled(current_xp, next_xp, width as int) {
                '\u{2588}'
            } else {
                '\u{2591}'
            }),
{
    let filled: usize = if next_xp == 0 {
        width
    } else {
        proof {
            assert((current_xp as u64) * (width as u64) <= 4294967295u64 * 100000u64)
                by (nonlinear_arith)
                requires
                    current_xp <= 4294967295u64,
                    width <= 100000,
            ;
        }
        let cw: u64 = (current_xp as u64) * (width as u64);
        let num: u64 = 2 * cw + (next_xp as u64);
        let den: u64 = 2 * (next_xp as u64);
        let f = num / den;
        if f <= width as u64 {
            f as usize
        } else {
            width
        }
    };
    let mut v: Vec<char> = Vec::new();
    let mut i: usize = 0;
    while i < width
        invariant
            i <= width,
            filled == spec_bar_filled(current_xp, next_xp, width as int),
            v@.len() == i,
            forall|j: int|
                0 <= j < i ==> v@[j] == (if j < spec_bar_filled(
                    current_xp,
                    next_xp,
                    width as int,
                ) {
                    '\u{2588}'
                } else {
                    '\u{2591}'
                }),
        decreases width - i,
    {
        if i < filled {
            v.push('\u{2588}');
        } else {
            v.push('\u{2591}');
        }
        i = i + 1;
    }
    string_from_chars(&v)
}

} // verus!
