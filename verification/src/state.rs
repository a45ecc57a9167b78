//! Persistent progression state: experience points, levels, commit streaks,
//! tool usage, and unlocked achievements.
//!
//! Dates are plain day numbers (days since a fixed epoch); the surrounding
//! process obtains today's number from the calendar clock and passes it in,
//! so every mutation here is deterministic in its arguments.

use vstd::prelude::*;
use crate::text::{contains_str, spec_has_str};

verus! {

/// The XP threshold at which the level with table index `i` begins.
/// Past the last defined level the threshold is `u32::MAX`.
pub open spec fn spec_threshold(i: int) -> u32 {
    if i <= 0 {
        0
    } else if i == 1 {
        100
    } else if i == 2 {
        500
    } else if i == 3 {
        1500
    } else if i == 4 {
        5000
    } else if i == 5 {
        10000
    } else if i == 6 {
        20000
    } else if i == 7 {
        35000
    } else if i == 8 {
        50000
    } else if i == 9 {
        75000
    } else {
        u32::MAX
    }
}

/// The 1-based level derived from an XP total: the highest table entry whose
/// threshold does not exceed `xp`.
pub open spec fn spec_level_of(xp: u32) -> u32 {
    if xp >= 75000 {
        10
    } else if xp >= 50000 {
        9
    } else if xp >= 35000 {
        8
    } else if xp >= 20000 {
        7
    } else if xp >= 10000 {
        6
    } else if xp >= 5000 {
        5
    } else if xp >= 1500 {
        4
    } else if xp >= 500 {
        3
    } else if xp >= 100 {
        2
    } else {
        1
    }
}

/// The display name of a 1-based level.
pub open spec fn spec_level_name(level: u32) -> Seq<char> {
    if level <= 1 {
        "Vibe Initiate"@
    } else if level == 2 {
        "Prompt Whisperer"@
    } else if level == 3 {
        "Vibe Architect"@
    } else if level == 4 {
        "Flow State Master"@
    } else if level == 5 {
        "Code Sensei"@
    } else if level == 6 {
        "Code Whisperer"@
    } else if level == 7 {
        "Vibe Lord"@
    } else if level == 8 {
        "Zen Master"@
    } else if level == 9 {
        "Transcendent"@
    } else {
        "Singularity"@
    }
}

/// Law: under non-negative XP gains the derived level never decreases.
pub proof fn lemma_level_monotonic(xp1: u32, xp2: u32)
    requires
        xp1 <= xp2,
    ensures
        spec_level_of(xp1) <= spec_level_of(xp2),
{
}

/// The XP total reached after a run of gains.
pub open spec fn spec_xp_sum(gains: Seq<u32>) -> int
    decreases gains.len(),
{
    if gains.len() == 0 {
        0
    } else {
        spec_xp_sum(gains.drop_last()) + gains.last()
    }
}

proof fn lemma_xp_sum_monotone(gains: Seq<u32>, i: int, j: int)
    requires
        0 <= i <= j <= gains.len(),
    ensures
        spec_xp_sum(gains.take(i)) <= spec_xp_sum(gains.take(j)),
    decreases j - i,
{
    if i < j {
        lemma_xp_sum_monotone(gains, i, j - 1);
        assert(gains.take(j).drop_last() =~= gains.take(j - 1));
        assert(spec_xp_sum(gains.take(j)) == spec_xp_sum(gains.take(j - 1)) + gains[j - 1]);
    }
}

/// Law: along any sequence of XP totals produced only by non-negative
/// gains, the derived level is monotonically non-decreasing.
pub proof fn lemma_level_monotonic_over_gains(gains: Seq<u32>, i: int, j: int)
    requires
        0 <= i <= j <= gains.len(),
        spec_xp_sum(gains.take(j)) <= u32::MAX,
    ensures
        spec_level_of(spec_xp_sum(gains.take(i)) as u32) <= spec_level_of(
            spec_xp_sum(gains.take(j)) as u32,
        ),
{
    lemma_xp_sum_monotone(gains, 0, i);
    assert(gains.take(0) =~= Seq::<u32>::empty());
    lemma_xp_sum_monotone(gains, i, j);
    lemma_level_monotonic(
        spec_xp_sum(gains.take(i)) as u32,
        spec_xp_sum(gains.take(j)) as u32,
    );
}

/// Outcome of recording one commit.
#[derive(Debug, Clone, PartialEq)]
pub struct CommitResult {
    /// Whether this was the first commit recorded on the given day.
    pub first_today: bool,
    /// If the streak just reached a milestone value (5, 10, 25 or 100),
    /// that value.
    pub streak_milestone: Option<u32>,
}

/// The persisted progression state, one instance per installation.
#[derive(Debug, Clone)]
#[verifier::ext_equal]
pub struct State {
    pub xp: u32,
    pub level: u32,
    pub level_name: String,
    pub commits_total: u32,
    pub commit_streak_days: u32,
    pub last_commit_date: Option<i64>,
    pub sessions_total: u32,
    pub achievements_unlocked: Vec<String>,
    pub tools_used: Vec<String>,
    pub last_event_at: Option<i64>,
    pub last_bash_exit: Option<i64>,
}

/// The mathematical shape of a `State`: strings as character sequences.
#[verifier::ext_equal]
pub ghost struct StateModel {
    pub xp: u32,
    pub level: u32,
    pub level_name: Seq<char>,
    pub commits_total: u32,
    pub commit_streak_days: u32,
    pub last_commit_date: Option<i64>,
    pub sessions_total: u32,
    pub achievements_unlocked: Seq<Seq<char>>,
    pub tools_used: Seq<Seq<char>>,
    pub last_event_at: Option<i64>,
    pub last_bash_exit: Option<i64>,
}

/// Whether some sequence in `v` equals `t`.
pub open spec fn spec_model_has(v: Seq<Seq<char>>, t: Seq<char>) -> bool {
    exists|i: int| 0 <= i < v.len() && v[i] == t
}

/// A list of strings as a list of character sequences.
pub open spec fn spec_views(v: Seq<String>) -> Seq<Seq<char>> {
    v.map_values(|s: String| s@)
}

/// Appending a string appends its characters to the model.
pub proof fn lemma_views_push(v: Seq<String>, x: String)
    ensures
        spec_views(v.push(x)) =~= spec_views(v).push(x@),
{
}

/// Membership agrees between a list of strings and its model.
pub proof fn lemma_has_str_model(v: Seq<String>, t: Seq<char>)
    ensures
        spec_has_str(v, t) == spec_model_has(spec_views(v), t),
{
    if spec_has_str(v, t) {
        let i = choose|i: int| 0 <= i < v.len() && v[i]@ == t;
        assert(spec_views(v)[i] == t);
    }
    if spec_model_has(spec_views(v), t) {
        let i = choose|i: int| 0 <= i < spec_views(v).len() && spec_views(v)[i] == t;
        assert(v[i]@ == t);
    }
}

impl State {
    /// The mathematical value of this state.
    pub open spec fn model(self) -> StateModel {
        StateModel {
            xp: self.xp,
            level: self.level,
            level_name: self.level_name@,
            commits_total: self.commits_total,
            commit_streak_days: self.commit_streak_days,
            last_commit_date: self.last_commit_date,
            sessions_total: self.sessions_total,
            achievements_unlocked: spec_views(self.achievements_unlocked@),
            tools_used: spec_views(self.tools_used@),
            last_event_at: self.last_event_at,
            last_bash_exit: self.last_bash_exit,
        }
    }
}

/// Whether the derived level fields agree with the XP total.
pub open spec fn spec_level_consistent(s: State) -> bool {
    s.level == spec_level_of(s.xp) && s.level_name@ == spec_level_name(s.level)
}

/// Whether a commit on day `today` would be the first of that day.
pub open spec fn spec_first_today(s: State, today: i64) -> bool {
    match s.last_commit_date {
        Some(d) => d != today,
        None => true,
    }
}

/// The commit streak after recording a commit on day `today`: extended on the
/// first commit of a day following the previous commit day, reset to 1 after
/// a gap, untouched by repeat commits on one day.
pub open spec fn spec_new_streak(s: State, today: i64) -> u32 {
    if spec_first_today(s, today) {
        if today > i64::MIN && s.last_commit_date == Some((today - 1) as i64) {
            (s.commit_streak_days + 1) as u32
        } else {
            1u32
        }
    } else {
        s.commit_streak_days
    }
}

/// Whether `v` is one of the fixed streak milestone values.
pub open spec fn spec_is_streak_milestone_value(v: u32) -> bool {
    v == 5 || v == 10 || v == 25 || v == 100
}

/// The milestone reported by recording a commit on day `today`: the new
/// streak value exactly when the streak changed onto a milestone value.
pub open spec fn spec_streak_milestone(s: State, today: i64) -> Option<u32> {
    let ns = spec_new_streak(s, today);
    if ns != s.commit_streak_days && spec_is_streak_milestone_value(ns) {
        Some(ns)
    } else {
        None
    }
}

/// The state after recording a commit on day `today`.
pub open spec fn spec_record_commit_state(s: State, today: i64) -> State {
    State {
        commits_total: (s.commits_total + 1) as u32,
        commit_streak_days: spec_new_streak(s, today),
        last_commit_date: if spec_first_today(s, today) {
            Some(today)
        } else {
            s.last_commit_date
        },
        ..s
    }
}

/// Law: a second commit recorded on the same calendar day increments the
/// commit total again but leaves the streak (and the milestone report) alone.
pub proof fn lemma_commit_twice_same_day(s: State, today: i64)
    requires
        s.commits_total + 2 <= u32::MAX,
        today > i64::MIN,
    ensures
        ({
            let s1 = spec_record_commit_state(s, today);
            let s2 = spec_record_commit_state(s1, today);
            &&& s2.commits_total == (s.commits_total + 2) as u32
            &&& s2.commit_streak_days == s1.commit_streak_days
            &&& !spec_first_today(s1, today)
            &&& spec_streak_milestone(s1, today) is None
        }),
{
}

/// Law: recording a commit reports a streak milestone if and only if the
/// streak changed onto exactly one of the values 5, 10, 25 or 100, and the
/// reported value is the new streak itself.
pub proof fn lemma_streak_milestone_iff(s: State, today: i64)
    ensures
        (spec_streak_milestone(s, today) is Some) <==> (spec_new_streak(s, today)
            != s.commit_streak_days && spec_is_streak_milestone_value(
            spec_new_streak(s, today),
        )),
        spec_streak_milestone(s, today) matches Some(m) ==> m == spec_new_streak(s, today),
{
}

impl Default for State {
    /// The zero-valued state used when nothing has been persisted yet.
    fn default() -> (r: Self)
        ensures
            r.xp == 0,
            r.level == 1,
            r.level_name@ == spec_level_name(1),
            r.commits_total == 0,
            r.commit_streak_days == 0,
            r.last_commit_date is None,
            r.sessions_total == 0,
            r.achievements_unlocked@.len() == 0,
            r.tools_used@.len() == 0,
            r.last_event_at is None,
            r.last_bash_exit is None,
            spec_level_consistent(r),
    {
        State {
            xp: 0,
            level: 1,
            level_name: String::from_str("Vibe Initiate"),
            commits_total: 0,
            commit_streak_days: 0,
            last_commit_date: None,
            sessions_total: 0,
            achievements_unlocked: Vec::new(),
            tools_used: Vec::new(),
            last_event_at: None,
            last_bash_exit: None,
        }
    }
}

impl State {
    /// Recompute the derived level fields from the XP total.
    fn update_level(&mut self)
        ensures
            final(self).level == spec_level_of(final(self).xp),
            final(self).level_name@ == spec_level_name(final(self).level),
            *final(self) == (State {
                level: final(self).level,
                level_name: final(self).level_name,
                ..*old(self)
            }),
    {
        let xp = self.xp;
        if xp >= 75000 {
            self.level = 10;
            self.level_name = String::from_str("Singularity");
        } else if xp >= 50000 {
            self.level = 9;
            self.level_name = String::from_str("Transcendent");
        } else if xp >= 35000 {
            self.level = 8;
            self.level_name = String::from_str("Zen Master");
        } else if xp >= 20000 {
            self.level = 7;
            self.level_name = String::from_str("Vibe Lord");
        } else if xp >= 10000 {
            self.level = 6;
            self.level_name = String::from_str("Code Whisperer");
        } else if xp >= 5000 {
            self.level = 5;
            self.level_name = String::from_str("Code Sensei");
        } else if xp >= 1500 {
            self.level = 4;
            self.level_name = String::from_str("Flow State Master");
        } else if xp >= 500 {
            self.level = 3;
            self.level_name = String::from_str("Vibe Architect");
        } else if xp >= 100 {
            self.level = 2;
            self.level_name = String::from_str("Prompt Whisperer");
        } else {
            self.level = 1;
            self.level_name = String::from_str("Vibe Initiate");
        }
        proof {
            assert(*self =~= (State { level: self.level, level_name: self.level_name, ..*old(self) }));
        }
    }

    /// Add XP and recompute the level; the level never moves down.
    pub fn add_xp(&mut self, amount: u32)
        requires
            old(self).xp + amount <= u32::MAX,
        ensures
            final(self).xp == old(self).xp + amount,
            final(self).level == spec_level_of(final(self).xp),
            final(self).level_name@ == spec_level_name(final(self).level),
            final(self).level >= spec_level_of(old(self).xp),
            *final(self) == (State {
                xp: final(self).xp,
                level: final(self).level,
                level_name: final(self).level_name,
                ..*old(self)
            }),
    {
        self.xp = self.xp + amount;
        self.update_level();
        proof {
            lemma_level_monotonic(old(self).xp, self.xp);
        }
    }

    /// Record one commit made on day `today`; every call counts the commit,
    /// while the streak only moves on the first commit of a day.
    pub fn record_commit(&mut self, today: i64) -> (r: CommitResult)
        requires
            old(self).commits_total < u32::MAX,
            old(self).commit_streak_days < u32::MAX,
            today > i64::MIN,
        ensures
            *final(self) == spec_record_commit_state(*old(self), today),
            r.first_today == spec_first_today(*old(self), today),
            r.streak_milestone == spec_streak_milestone(*old(self), today),
    {
        self.commits_total = self.commits_total + 1;
        let first_today = match self.last_commit_date {
            Some(d) => d != today,
            None => true,
        };
        let old_streak = self.commit_streak_days;
        if first_today {
            let was_yesterday = match self.last_commit_date {
                Some(d) => d == today - 1,
                None => false,
            };
            if was_yesterday {
                self.commit_streak_days = old_streak + 1;
            } else {
                self.commit_streak_days = 1;
            }
            self.last_commit_date = Some(today);
        }
        let ns = self.commit_streak_days;
        let streak_milestone: Option<u32> = if ns != old_streak && (ns == 5 || ns == 10 || ns == 25
            || ns == 100) {
            Some(ns)
        } else {
            None
        };
        proof {
            assert(*self =~= spec_record_commit_state(*old(self), today));
        }
        CommitResult { first_today, streak_milestone }
    }

    /// Note that a tool was used; returns whether this was its first use.
    pub fn record_tool_use(&mut self, tool: &str) -> (r: bool)
        ensures
            r == !spec_has_str(old(self).tools_used@, tool@),
            r ==> final(self).tools_used@ == old(self).tools_used@.push(
                final(self).tools_used@.last(),
            ) && final(self).tools_used@.last()@ == tool@,
            !r ==> final(self).tools_used@ == old(self).tools_used@,
            *final(self) == (State { tools_used: final(self).tools_used, ..*old(self) }),
    {
        if contains_str(&self.tools_used, tool) {
            proof {
                assert(*self =~= (State { tools_used: self.tools_used, ..*old(self) }));
            }
            false
        } else {
            self.tools_used.push(tool.to_owned());
            proof {
                assert(*self =~= (State { tools_used: self.tools_used, ..*old(self) }));
            }
            true
        }
    }

    /// Append an achievement id unless it is already unlocked; returns
    /// whether it was newly unlocked.
    pub fn unlock_achievement(&mut self, id: &str) -> (r: bool)
        ensures
            r == !spec_has_str(old(self).achievements_unlocked@, id@),
            r ==> final(self).achievements_unlocked@ == old(self).achievements_unlocked@.push(
                final(self).achievements_unlocked@.last(),
            ) && final(self).achievements_unlocked@.last()@ == id@,
            !r ==> final(self).achievements_unlocked@ == old(self).achievements_unlocked@,
            *final(self) == (State {
                achievements_unlocked: final(self).achievements_unlocked,
                ..*old(self)
            }),
    {
        if contains_str(&self.achievements_unlocked, id) {
            proof {
                assert(*self =~= (State {
                    achievements_unlocked: self.achievements_unlocked,
                    ..*old(self)
                }));
            }
            false
        } else {
            self.achievements_unlocked.push(id.to_owned());
            proof {
                assert(*self =~= (State {
                    achievements_unlocked: self.achievements_unlocked,
                    ..*old(self)
                }));
            }
            true
        }
    }
}

} // verus!
