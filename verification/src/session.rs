//! Per-session ephemeral counters: commits this session and the
//! session-duration milestones already celebrated.
//!
//! Records are held only in the daemon's in-memory map and are discarded
//! when a session ends. Times are seconds on the daemon's monotonic clock,
//! passed in by the caller, so every check is deterministic in its
//! arguments.

use vstd::prelude::*;
use crate::celebration::CelebrationLevel;

verus! {

/// The session-duration milestones, as (minutes, level) pairs in ascending
/// order: one hour and three hours rate a Medium celebration, eight hours
/// an Epic one.
pub const DURATION_MILESTONE_1: u64 = 60;

pub const DURATION_MILESTONE_2: u64 = 180;

pub const DURATION_MILESTONE_3: u64 = 480;

/// Runtime-only session tracking, never persisted.
#[derive(Debug, Clone)]
#[verifier::ext_equal]
pub struct SessionInfo {
    /// Seconds on the daemon's monotonic clock when the session began.
    pub started_at: u64,
    /// Commits observed in this session.
    pub commits: u32,
    /// Minutes values of duration milestones already celebrated.
    pub duration_milestones_fired: Vec<u64>,
}

impl Default for SessionInfo {
    /// A fresh record at clock origin; the daemon constructs live records
    /// with `with_started_at` and its current clock reading.
    fn default() -> (r: Self)
        ensures
            r.started_at == 0,
            r.commits == 0,
            r.duration_milestones_fired@.len() == 0,
    {
        SessionInfo { started_at: 0, commits: 0, duration_milestones_fired: Vec::new() }
    }
}

/// Whole minutes elapsed since the session began.
pub open spec fn spec_elapsed_minutes(s: SessionInfo, now: u64) -> u64 {
    if now >= s.started_at {
        (((now - s.started_at) as u64) / 60) as u64
    } else {
        0
    }
}

/// Whether the milestone at `m` minutes is crossed and not yet celebrated.
pub open spec fn spec_milestone_crossed(s: SessionInfo, now: u64, m: u64) -> bool {
    spec_elapsed_minutes(s, now) >= m && !s.duration_milestones_fired@.contains(m)
}

/// The fired list after one milestone check at time `now`: newly crossed
/// milestones are appended in table order.
pub open spec fn spec_fired_after(s: SessionInfo, now: u64) -> Seq<u64> {
    let a = if spec_milestone_crossed(s, now, DURATION_MILESTONE_1) {
        s.duration_milestones_fired@.push(DURATION_MILESTONE_1)
    } else {
        s.duration_milestones_fired@
    };
    let b = if spec_milestone_crossed(s, now, DURATION_MILESTONE_2) {
        a.push(DURATION_MILESTONE_2)
    } else {
        a
    };
    if spec_milestone_crossed(s, now, DURATION_MILESTONE_3) {
        b.push(DURATION_MILESTONE_3)
    } else {
        b
    }
}

/// The level reported by one milestone check at time `now`: the highest
/// level among the newly crossed milestones, or nothing.
pub open spec fn spec_duration_result(s: SessionInfo, now: u64) -> Option<CelebrationLevel> {
    if spec_milestone_crossed(s, now, DURATION_MILESTONE_3) {
        Some(CelebrationLevel::Epic)
    } else if spec_milestone_crossed(s, now, DURATION_MILESTONE_1) || spec_milestone_crossed(
        s,
        now,
        DURATION_MILESTONE_2,
    ) {
        Some(CelebrationLevel::Medium)
    } else {
        None
    }
}

/// Whether `v` holds the value `x`.
fn contains_u64(v: &Vec<u64>, x: u64) -> (r: bool)
    ensures
        r == v@.contains(x),
{
    let n: usize = v.len();
    let mut i: usize = 0;
    while i < n
        invariant
            i <= n,
            n == v@.len(),
            forall|j: int| 0 <= j < i ==> v@[j] != x,
        decreases n - i,
    {
        if v[i] == x {
            return true;
        }
        i = i + 1;
    }
    proof {
        if v@.contains(x) {
            let j = choose|j: int| 0 <= j < v@.len() && v@[j] == x;
            assert(false);
        }
    }
    false
}

impl SessionInfo {
    /// A fresh record for a session that began at the given clock reading.
    pub fn with_started_at(started_at: u64) -> (r: Self)
        ensures
            r.started_at == started_at,
            r.commits == 0,
            r.duration_milestones_fired@.len() == 0,
    {
        SessionInfo { started_at, commits: 0, duration_milestones_fired: Vec::new() }
    }

    /// Check the duration milestones at time `now`: each crossed milestone
    /// not yet celebrated is marked fired, and the highest newly crossed
    /// level is returned. A milestone never fires twice for one session.
    pub fn check_duration_milestones(&mut self, now: u64) -> (r: Option<CelebrationLevel>)
        ensures
            r == spec_duration_result(*old(self), now),
            final(self).duration_milestones_fired@ == spec_fired_after(*old(self), now),
            final(self).started_at == old(self).started_at,
            final(self).commits == old(self).commits,
    {
        let elapsed_minutes: u64 = if now >= self.started_at {
            (now - self.started_at) / 60
        } else {
            0
        };
        // The milestone values are pairwise distinct, so marking one fired
        // cannot affect whether another counts as crossed.
        let crossed_1 = elapsed_minutes >= DURATION_MILESTONE_1 && !contains_u64(
            &self.duration_milestones_fired,
            DURATION_MILESTONE_1,
        );
        let crossed_2 = elapsed_minutes >= DURATION_MILESTONE_2 && !contains_u64(
            &self.duration_milestones_fired,
            DURATION_MILESTONE_2,
        );
        let crossed_3 = elapsed_minutes >= DURATION_MILESTONE_3 && !contains_u64(
            &self.duration_milestones_fired,
            DURATION_MILESTONE_3,
        );
        if crossed_1 {
            self.duration_milestones_fired.push(DURATION_MILESTONE_1);
        }
        if crossed_2 {
            self.duration_milestones_fired.push(DURATION_MILESTONE_2);
        }
        if crossed_3 {
            self.duration_milestones_fired.push(DURATION_MILESTONE_3);
        }
        if crossed_3 {
            Some(CelebrationLevel::Epic)
        } else if crossed_1 || crossed_2 {
            Some(CelebrationLevel::Medium)
        } else {
            None
        }
    }
}

proof fn lemma_push_keeps_contains(q: Seq<u64>, z: u64, x: u64)
    requires
        q.contains(x),
    ensures
        q.push(z).contains(x),
{
    let i = choose|i: int| 0 <= i < q.len() && q[i] == x;
    assert(q.push(z)[i] == x);
}

/// Law: one check folds simultaneously crossed milestones into a single
/// report at the highest applicable level: the eight-hour milestone rates
/// Epic whenever it is among the newly crossed, and otherwise a newly
/// crossed one- or three-hour milestone rates Medium.
pub proof fn lemma_duration_result_is_highest(s: SessionInfo, now: u64)
    ensures
        spec_milestone_crossed(s, now, DURATION_MILESTONE_3) ==> spec_duration_result(s, now)
            == Some(CelebrationLevel::Epic),
        !spec_milestone_crossed(s, now, DURATION_MILESTONE_3) && (spec_milestone_crossed(
            s,
            now,
            DURATION_MILESTONE_1,
        ) || spec_milestone_crossed(s, now, DURATION_MILESTONE_2)) ==> spec_duration_result(
            s,
            now,
        ) == Some(CelebrationLevel::Medium),
        (!spec_milestone_crossed(s, now, DURATION_MILESTONE_1) && !spec_milestone_crossed(
            s,
            now,
            DURATION_MILESTONE_2,
        ) && !spec_milestone_crossed(s, now, DURATION_MILESTONE_3)) ==> spec_duration_result(
            s,
            now,
        ) is None,
{
}

/// Law: a duration milestone crossed by one check is recorded as fired, so
/// a later check on the resulting record never reports the same threshold
/// again, whatever time it runs at.
pub proof fn lemma_duration_milestone_no_refire(
    s: SessionInfo,
    s1: SessionInfo,
    now1: u64,
    now2: u64,
    m: u64,
)
    requires
        s1.duration_milestones_fired@ == spec_fired_after(s, now1),
        spec_milestone_crossed(s, now1, m),
        m == DURATION_MILESTONE_1 || m == DURATION_MILESTONE_2 || m == DURATION_MILESTONE_3,
    ensures
        !spec_milestone_crossed(s1, now2, m),
{
    let f0 = s.duration_milestones_fired@;
    let a = if spec_milestone_crossed(s, now1, DURATION_MILESTONE_1) {
        f0.push(DURATION_MILESTONE_1)
    } else {
        f0
    };
    let b = if spec_milestone_crossed(s, now1, DURATION_MILESTONE_2) {
        a.push(DURATION_MILESTONE_2)
    } else {
        a
    };
    if m == DURATION_MILESTONE_1 {
        assert(a.contains(m)) by {
            assert(a[a.len() - 1] == m);
        }
        if spec_milestone_crossed(s, now1, DURATION_MILESTONE_2) {
            lemma_push_keeps_contains(a, DURATION_MILESTONE_2, m);
        }
        if spec_milestone_crossed(s, now1, DURATION_MILESTONE_3) {
            lemma_push_keeps_contains(b, DURATION_MILESTONE_3, m);
        }
    } else if m == DURATION_MILESTONE_2 {
        assert(b.contains(m)) by {
            assert(b[b.len() - 1] == m);
        }
        if spec_milestone_crossed(s, now1, DURATION_MILESTONE_3) {
            lemma_push_keeps_contains(b, DURATION_MILESTONE_3, m);
        }
    } else {
        let c = b.push(DURATION_MILESTONE_3);
        assert(c.contains(m)) by {
            assert(c[c.len() - 1] == m);
        }
    }
}

} // verus!
