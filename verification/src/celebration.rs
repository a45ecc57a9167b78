//! The celebration classifier: maps an event, the current state and the
//! configuration to a celebration intensity.
//!
//! Shell command text is scanned for custom triggers (first configured match
//! wins) and for `git commit` / `git push` sub-commands (push beats commit,
//! wherever it stands in the chain).

use vstd::prelude::*;
use crate::config::{Config, CustomTrigger, Intensity};
use crate::event::{spec_meta_text, Event, EventKind};
use crate::state::State;
use crate::text::{
    chars_eq, chars_of, contains_chars, seq_contains, seq_starts_with, starts_with_chars,
    str_eq, trim_chars, trimmed,
};

verus! {

/// The magnitude of a celebration, totally ordered from `Off` to `Epic`.
#[derive(Debug, Clone, Copy, PartialEq, Eq, PartialOrd, Ord, Hash, Structural)]
pub enum CelebrationLevel {
    Off,
    Mini,
    Medium,
    Epic,
}

/// Position of a level in the `Off < Mini < Medium < Epic` order.
pub open spec fn spec_rank(l: CelebrationLevel) -> int {
    match l {
        CelebrationLevel::Off => 0,
        CelebrationLevel::Mini => 1,
        CelebrationLevel::Medium => 2,
        CelebrationLevel::Epic => 3,
    }
}

/// The higher of two celebration levels.
pub open spec fn spec_level_max(a: CelebrationLevel, b: CelebrationLevel) -> CelebrationLevel {
    if spec_rank(a) >= spec_rank(b) {
        a
    } else {
        b
    }
}

/// Position of a level in the order (executable).
pub fn rank_of(l: &CelebrationLevel) -> (r: u32)
    ensures
        r == spec_rank(*l),
{
    match l {
        CelebrationLevel::Off => 0,
        CelebrationLevel::Mini => 1,
        CelebrationLevel::Medium => 2,
        CelebrationLevel::Epic => 3,
    }
}

/// Pick the higher of two celebration levels.
pub fn level_max(a: CelebrationLevel, b: CelebrationLevel) -> (r: CelebrationLevel)
    ensures
        r == spec_level_max(a, b),
{
    if rank_of(&a) >= rank_of(&b) {
        a
    } else {
        b
    }
}

/// The celebration level named by a configured intensity slot.
pub open spec fn spec_level_of_intensity(i: Intensity) -> CelebrationLevel {
    match i {
        Intensity::Off => CelebrationLevel::Off,
        Intensity::Mini => CelebrationLevel::Mini,
        Intensity::Medium => CelebrationLevel::Medium,
        Intensity::Epic => CelebrationLevel::Epic,
    }
}

/// Convert a configured intensity slot to a celebration level.
pub fn level_of_intensity(i: &Intensity) -> (r: CelebrationLevel)
    ensures
        r == spec_level_of_intensity(*i),
{
    match i {
        Intensity::Off => CelebrationLevel::Off,
        Intensity::Mini => CelebrationLevel::Mini,
        Intensity::Medium => CelebrationLevel::Medium,
        Intensity::Epic => CelebrationLevel::Epic,
    }
}

/// The intensity of the first trigger whose pattern occurs in `cmd`, in
/// configured order.
pub open spec fn spec_first_trigger(ts: Seq<CustomTrigger>, cmd: Seq<char>) -> Option<Intensity>
    decreases ts.len(),
{
    if ts.len() == 0 {
        None
    } else if seq_contains(cmd, ts[0].pattern@) {
        Some(ts[0].intensity)
    } else {
        spec_first_trigger(ts.drop_first(), cmd)
    }
}

/// Scan the configured custom triggers in order and return the celebration
/// level of the first one whose pattern is a substring of the command text.
/// The first match wins even if a later pattern is more specific.
pub fn check_custom_triggers(command: &str, cfg: &Config) -> (r: Option<CelebrationLevel>)
    ensures
        r == match spec_first_trigger(cfg.triggers.custom@, command@) {
            Some(i) => Some(spec_level_of_intensity(i)),
            None => None::<CelebrationLevel>,
        },
{
    let cmd = chars_of(command);
    let n: usize = cfg.triggers.custom.len();
    let mut i: usize = 0;
    proof {
        assert(cfg.triggers.custom@.skip(0) =~= cfg.triggers.custom@);
    }
    while i < n
        invariant
            i <= n,
            n == cfg.triggers.custom@.len(),
            cmd@ == command@,
            spec_first_trigger(cfg.triggers.custom@, command@) == spec_first_trigger(
                cfg.triggers.custom@.skip(i as int),
                command@,
            ),
        decreases n - i,
    {
        proof {
            assert(cfg.triggers.custom@.skip(i as int)[0] == cfg.triggers.custom@[i as int]);
        }
        let pat = chars_of(cfg.triggers.custom[i].pattern.as_str());
        if contains_chars(&cmd, &pat) {
            return Some(level_of_intensity(&cfg.triggers.custom[i].intensity));
        }
        proof {
            assert(cfg.triggers.custom@.skip(i as int).drop_first() =~= cfg.triggers.custom@.skip(
                i + 1 as int,
            ));
        }
        i = i + 1;
    }
    None
}

/// Split a command into segments at `&&`, `;` and `||`, scanning left to
/// right; `cur` and `acc` carry the segment being read and those already
/// read.
pub open spec fn spec_split_segs(
    t: Seq<char>,
    i: int,
    cur: Seq<char>,
    acc: Seq<Seq<char>>,
) -> Seq<Seq<char>>
    decreases t.len() - i,
{
    if i < 0 || i >= t.len() {
        acc.push(cur)
    } else if t[i] == ';' {
        spec_split_segs(t, i + 1, Seq::empty(), acc.push(cur))
    } else if t[i] == '&' && i + 1 < t.len() && t[i + 1] == '&' {
        spec_split_segs(t, i + 2, Seq::empty(), acc.push(cur))
    } else if t[i] == '|' && i + 1 < t.len() && t[i + 1] == '|' {
        spec_split_segs(t, i + 2, Seq::empty(), acc.push(cur))
    } else {
        spec_split_segs(t, i + 1, cur.push(t[i]), acc)
    }
}

/// The segments of a command text.
pub open spec fn spec_segments(t: Seq<char>) -> Seq<Seq<char>> {
    spec_split_segs(t, 0, Seq::empty(), Seq::empty())
}

/// Whether a segment, once trimmed, invokes `git push`.
pub open spec fn spec_is_push_seg(seg: Seq<char>) -> bool {
    trimmed(seg) == "git push"@ || seq_starts_with(trimmed(seg), "git push "@)
}

/// Whether a segment, once trimmed, invokes `git commit`.
pub open spec fn spec_is_commit_seg(seg: Seq<char>) -> bool {
    trimmed(seg) == "git commit"@ || seq_starts_with(trimmed(seg), "git commit "@)
}

/// Whether any segment invokes `git push`.
pub open spec fn spec_has_push(segs: Seq<Seq<char>>) -> bool {
    exists|i: int| 0 <= i < segs.len() && spec_is_push_seg(segs[i])
}

/// Whether any segment invokes `git commit`.
pub open spec fn spec_has_commit(segs: Seq<Seq<char>>) -> bool {
    exists|i: int| 0 <= i < segs.len() && spec_is_commit_seg(segs[i])
}

/// The git sub-command a command text is classified as: a push anywhere
/// takes priority over any commit; otherwise a commit, if present.
pub open spec fn spec_detect_git(t: Seq<char>) -> Option<EventKind> {
    if spec_has_push(spec_segments(t)) {
        Some(EventKind::GitPush)
    } else if spec_has_commit(spec_segments(t)) {
        Some(EventKind::GitCommit)
    } else {
        None
    }
}

/// Whether a command text contains a `git commit` segment.
pub open spec fn spec_has_git_commit(t: Seq<char>) -> bool {
    spec_has_commit(spec_segments(t))
}

/// Split a command's characters into segments at `&&`, `;` and `||`.
fn command_segments(t: &Vec<char>) -> (segs: Vec<Vec<char>>)
    ensures
        segs@.map_values(|v: Vec<char>| v@) == spec_segments(t@),
{
    let n: usize = t.len();
    let mut segs: Vec<Vec<char>> = Vec::new();
    let mut cur: Vec<char> = Vec::new();
    let mut i: usize = 0;
    proof {
        assert(segs@.map_values(|v: Vec<char>| v@) =~= Seq::<Seq<char>>::empty());
    }
    while i < n
        invariant
            i <= n,
            n == t@.len(),
            spec_segments(t@) == spec_split_segs(
                t@,
                i as int,
                cur@,
                segs@.map_values(|v: Vec<char>| v@),
            ),
        decreases n - i,
    {
        let c = t[i];
        if c == ';' {
            let ghost prev = segs@.map_values(|v: Vec<char>| v@);
            let ghost curv = cur@;
            segs.push(cur);
            cur = Vec::new();
            proof {
                assert(segs@.map_values(|v: Vec<char>| v@) =~= prev.push(curv));
            }
            i = i + 1;
        } else if c == '&' && i + 1 < n && t[i + 1] == '&' {
            let ghost prev = segs@.map_values(|v: Vec<char>| v@);
            let ghost curv = cur@;
            segs.push(cur);
            cur = Vec::new();
            proof {
                assert(segs@.map_values(|v: Vec<char>| v@) =~= prev.push(curv));
            }
            i = i + 2;
        } else if c == '|' && i + 1 < n && t[i + 1] == '|' {
            let ghost prev = segs@.map_values(|v: Vec<char>| v@);
            let ghost curv = cur@;
            segs.push(cur);
            cur = Vec::new();
            proof {
                assert(segs@.map_values(|v: Vec<char>| v@) =~= prev.push(curv));
            }
            i = i + 2;
        } else {
            cur.push(c);
            i = i + 1;
        }
    }
    let ghost prev = segs@.map_values(|v: Vec<char>| v@);
    let ghost curv = cur@;
    segs.push(cur);
    proof {
        assert(segs@.map_values(|v: Vec<char>| v@) =~= prev.push(curv));
    }
    segs
}

/// Whether a trimmed segment equals `git push` or starts with `git push `.
fn seg_is_push(seg: &Vec<char>) -> (r: bool)
    ensures
        r == spec_is_push_seg(seg@),
{
    let tr = trim_chars(seg);
    let exact = chars_of("git push");
    let pre = chars_of("git push ");
    chars_eq(&tr, &exact) || starts_with_chars(&tr, &pre)
}

/// Whether a trimmed segment equals `git commit` or starts with `git commit `.
fn seg_is_commit(seg: &Vec<char>) -> (r: bool)
    ensures
        r == spec_is_commit_seg(seg@),
{
    let tr = trim_chars(seg);
    let exact = chars_of("git commit");
    let pre = chars_of("git commit ");
    chars_eq(&tr, &exact) || starts_with_chars(&tr, &pre)
}

/// Whether a shell command string contains a `git commit` sub-command.
pub fn has_git_commit(command: &str) -> (r: bool)
    ensures
        r == spec_has_git_commit(command@),
{
    let t = chars_of(command);
    let segs = command_segments(&t);
    let ghost sv = segs@.map_values(|v: Vec<char>| v@);
    let n: usize = segs.len();
    let mut i: usize = 0;
    while i < n
        invariant
            i <= n,
            n == segs@.len(),
            sv == segs@.map_values(|v: Vec<char>| v@),
            sv == spec_segments(command@),
            forall|j: int| 0 <= j < i ==> !spec_is_commit_seg(sv[j]),
        decreases n - i,
    {
        if seg_is_commit(&segs[i]) {
            proof {
                assert(spec_is_commit_seg(sv[i as int]));
            }
            return true;
        }
        i = i + 1;
    }
    false
}

/// Detect a git sub-command in a shell command string; a push anywhere wins
/// over any commit.
pub fn detect_git_command(command: &str) -> (r: Option<EventKind>)
    ensures
        r == spec_detect_git(command@),
{
    let t = chars_of(command);
    let segs = command_segments(&t);
    let ghost sv = segs@.map_values(|v: Vec<char>| v@);
    let n: usize = segs.len();
    let mut found_commit = false;
    let mut i: usize = 0;
    while i < n
        invariant
            i <= n,
            n == segs@.len(),
            sv == segs@.map_values(|v: Vec<char>| v@),
            sv == spec_segments(command@),
            forall|j: int| 0 <= j < i ==> !spec_is_push_seg(sv[j]),
            found_commit == exists|j: int| 0 <= j < i && spec_is_commit_seg(sv[j]),
        decreases n - i,
    {
        if seg_is_push(&segs[i]) {
            proof {
                assert(spec_is_push_seg(sv[i as int]));
            }
            return Some(EventKind::GitPush);
        }
        if seg_is_commit(&segs[i]) {
            found_commit = true;
            proof {
                assert(spec_is_commit_seg(sv[i as int]));
            }
        }
        i = i + 1;
    }
    if found_commit {
        Some(EventKind::GitCommit)
    } else {
        None
    }
}

/// The intensity slot used for an event kind when no tool-specific rule
/// applies.
pub open spec fn spec_decide_by_kind(k: EventKind, cfg: Config) -> CelebrationLevel {
    match k {
        EventKind::TaskCompleted => spec_level_of_intensity(cfg.intensity.task_completed),
        EventKind::GitCommit => spec_level_of_intensity(cfg.intensity.milestone),
        EventKind::GitPush => spec_level_of_intensity(cfg.intensity.breakthrough),
        EventKind::SessionEnd => spec_level_of_intensity(cfg.intensity.milestone),
        EventKind::PostToolUseFailure => CelebrationLevel::Off,
        _ => spec_level_of_intensity(cfg.intensity.routine),
    }
}

/// The celebration level for an event: custom triggers first, then git
/// sub-command detection, then the per-kind configured slots.
pub open spec fn spec_decide(e: Event, cfg: Config) -> CelebrationLevel {
    if e.event == EventKind::PostToolUse {
        match e.tool {
            Some(tool) => {
                if tool@ == "Bash"@ {
                    match spec_meta_text(e, "command"@) {
                        Some(cmd) => match spec_first_trigger(cfg.triggers.custom@, cmd) {
                            Some(i) => spec_level_of_intensity(i),
                            None => match spec_detect_git(cmd) {
                                Some(EventKind::GitCommit) => spec_level_of_intensity(
                                    cfg.intensity.milestone,
                                ),
                                Some(EventKind::GitPush) => spec_level_of_intensity(
                                    cfg.intensity.breakthrough,
                                ),
                                _ => spec_level_of_intensity(cfg.intensity.routine),
                            },
                        },
                        None => spec_level_of_intensity(cfg.intensity.routine),
                    }
                } else if tool@ == "Write"@ || tool@ == "Edit"@ || tool@ == "Read"@ {
                    spec_level_of_intensity(cfg.intensity.routine)
                } else {
                    spec_decide_by_kind(e.event, cfg)
                }
            },
            None => spec_decide_by_kind(e.event, cfg),
        }
    } else {
        spec_decide_by_kind(e.event, cfg)
    }
}

/// Classify an event into a celebration level. Pure in its inputs; the
/// state parameter is accepted for interface stability but does not affect
/// the decision.
pub fn decide(event: &Event, _state: &State, cfg: &Config) -> (r: CelebrationLevel)
    ensures
        r == spec_decide(*event, *cfg),
{
    if event.event == EventKind::PostToolUse {
        if let Some(tool) = &event.tool {
            if str_eq(tool.as_str(), "Bash") {
                if let Some(cmd) = event.meta_text("command") {
                    let command = cmd.as_str();
                    if let Some(lvl) = check_custom_triggers(command, cfg) {
                        return lvl;
                    }
                    match detect_git_command(command) {
                        Some(EventKind::GitCommit) => {
                            return level_of_intensity(&cfg.intensity.milestone);
                        },
                        Some(EventKind::GitPush) => {
                            return level_of_intensity(&cfg.intensity.breakthrough);
                        },
                        _ => {
                            return level_of_intensity(&cfg.intensity.routine);
                        },
                    }
                }
                return level_of_intensity(&cfg.intensity.routine);
            }
            if str_eq(tool.as_str(), "Write") || str_eq(tool.as_str(), "Edit") || str_eq(
                tool.as_str(),
                "Read",
            ) {
                return level_of_intensity(&cfg.intensity.routine);
            }
        }
    }
    match event.event {
        EventKind::TaskCompleted => level_of_intensity(&cfg.intensity.task_completed),
        EventKind::GitCommit => level_of_intensity(&cfg.intensity.milestone),
        EventKind::GitPush => level_of_intensity(&cfg.intensity.breakthrough),
        EventKind::SessionEnd => level_of_intensity(&cfg.intensity.milestone),
        EventKind::PostToolUseFailure => CelebrationLevel::Off,
        _ => level_of_intensity(&cfg.intensity.routine),
    }
}

/// The base XP awarded for a celebration level.
pub open spec fn spec_xp_for_level(l: CelebrationLevel) -> u32 {
    match l {
        CelebrationLevel::Off => 0,
        CelebrationLevel::Mini => 5,
        CelebrationLevel::Medium => 25,
        CelebrationLevel::Epic => 100,
    }
}

/// The base XP awarded for a celebration level.
pub fn xp_for_level(level: &CelebrationLevel) -> (r: u32)
    ensures
        r == spec_xp_for_level(*level),
{
    match level {
        CelebrationLevel::Off => 0,
        CelebrationLevel::Mini => 5,
        CelebrationLevel::Medium => 25,
        CelebrationLevel::Epic => 100,
    }
}

/// The XP award for an event: the base award, doubled while the commit
/// streak bonus (streak of at least 5 days) is active.
pub open spec fn spec_xp_for_event(l: CelebrationLevel, s: State) -> u32 {
    let base = spec_xp_for_level(l);
    if base > 0 && s.commit_streak_days >= 5 {
        (2 * base) as u32
    } else {
        base
    }
}

/// XP with the 2x streak bonus applied when `commit_streak_days >= 5`.
pub fn xp_for_event(level: &CelebrationLevel, state: &State) -> (r: u32)
    ensures
        r == spec_xp_for_event(*level, *state),
{
    let base = xp_for_level(level);
    if base > 0 && state.commit_streak_days >= 5 {
        2 * base
    } else {
        base
    }
}

} // verus!
