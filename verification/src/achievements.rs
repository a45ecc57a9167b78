//! The fixed achievement catalog and the pure predicate evaluator over
//! (state, event).
//!
//! The checker runs against the state as it stands at call time; callers
//! must invoke it before applying event-derived mutations the predicates
//! depend on retroactively (notably the previous shell exit code).

use vstd::prelude::*;
use crate::event::{spec_meta_int, Event, EventKind};
use crate::state::{lemma_has_str_model, spec_model_has, State, StateModel};
use crate::text::{chars_of, contains_str, seq_starts_with, starts_with_chars, str_eq};

verus! {

/// Number of entries in the achievement catalog.
pub const ACHIEVEMENT_COUNT: usize = 26;

/// A static catalog entry: stable id, display name, description.
#[derive(Debug, Clone, Copy)]
pub struct Achievement {
    pub id: &'static str,
    pub name: &'static str,
    pub description: &'static str,
}

/// The id of the catalog entry at index `i`, in declaration order.
pub open spec fn spec_ach_id(i: int) -> Seq<char> {
    if i == 0 {
        "first_commit"@
    } else if i == 1 {
        "commit_10"@
    } else if i == 2 {
        "commit_50"@
    } else if i == 3 {
        "commit_100"@
    } else if i == 4 {
        "streak_5"@
    } else if i == 5 {
        "streak_10"@
    } else if i == 6 {
        "streak_25"@
    } else if i == 7 {
        "first_push"@
    } else if i == 8 {
        "test_whisperer"@
    } else if i == 9 {
        "tool_explorer"@
    } else if i == 10 {
        "tool_master"@
    } else if i == 11 {
        "level_2"@
    } else if i == 12 {
        "level_3"@
    } else if i == 13 {
        "level_4"@
    } else if i == 14 {
        "level_5"@
    } else if i == 15 {
        "level_7"@
    } else if i == 16 {
        "level_10"@
    } else if i == 17 {
        "first_subagent"@
    } else if i == 18 {
        "web_surfer"@
    } else if i == 19 {
        "researcher"@
    } else if i == 20 {
        "mcp_pioneer"@
    } else if i == 21 {
        "notebook_scientist"@
    } else if i == 22 {
        "todo_master"@
    } else if i == 23 {
        "first_skill"@
    } else if i == 24 {
        "first_team"@
    } else {
        "team_communicator"@
    }
}

/// The display name of the catalog entry at index `i`.
pub open spec fn spec_ach_name(i: int) -> Seq<char> {
    if i == 0 {
        "First Commit"@
    } else if i == 1 {
        "Getting Committed"@
    } else if i == 2 {
        "Commit Machine"@
    } else if i == 3 {
        "Centurion"@
    } else if i == 4 {
        "On a Roll"@
    } else if i == 5 {
        "Unstoppable"@
    } else if i == 6 {
        "Dedicated"@
    } else if i == 7 {
        "Shipped It"@
    } else if i == 8 {
        "Test Whisperer"@
    } else if i == 9 {
        "Tool Explorer"@
    } else if i == 10 {
        "Tool Master"@
    } else if i == 11 {
        "Prompt Whisperer"@
    } else if i == 12 {
        "Vibe Architect"@
    } else if i == 13 {
        "Flow State Master"@
    } else if i == 14 {
        "Code Sensei"@
    } else if i == 15 {
        "Vibe Lord"@
    } else if i == 16 {
        "Singularity"@
    } else if i == 17 {
        "Delegator"@
    } else if i == 18 {
        "Web Surfer"@
    } else if i == 19 {
        "Deep Researcher"@
    } else if i == 20 {
        "MCP Pioneer"@
    } else if i == 21 {
        "Data Scientist"@
    } else if i == 22 {
        "Organized"@
    } else if i == 23 {
        "Skilled Up"@
    } else if i == 24 {
        "Team Player"@
    } else {
        "Team Lead"@
    }
}

/// The description of the catalog entry at index `i`.
pub open spec fn spec_ach_desc(i: int) -> Seq<char> {
    if i == 0 {
        "Made your first git commit"@
    } else if i == 1 {
        "10 commits total"@
    } else if i == 2 {
        "50 commits total"@
    } else if i == 3 {
        "100 commits total"@
    } else if i == 4 {
        "5-day commit streak"@
    } else if i == 5 {
        "10-day commit streak"@
    } else if i == 6 {
        "25-day commit streak"@
    } else if i == 7 {
        "First git push"@
    } else if i == 8 {
        "Fixed a failing bash command"@
    } else if i == 9 {
        "Used 5 different tools"@
    } else if i == 10 {
        "Used 10 different tools"@
    } else if i == 11 {
        "Reached level 2"@
    } else if i == 12 {
        "Reached level 3"@
    } else if i == 13 {
        "Reached level 4"@
    } else if i == 14 {
        "Reached level 5"@
    } else if i == 15 {
        "Reached level 7"@
    } else if i == 16 {
        "Reached level 10"@
    } else if i == 17 {
        "Spawned a subagent with Task tool"@
    } else if i == 18 {
        "Used WebSearch"@
    } else if i == 19 {
        "Used WebFetch"@
    } else if i == 20 {
        "Used an MCP tool"@
    } else if i == 21 {
        "Used NotebookEdit"@
    } else if i == 22 {
        "Used TodoWrite"@
    } else if i == 23 {
        "Invoked a skill or slash command"@
    } else if i == 24 {
        "Created an agent team"@
    } else {
        "Sent a message to a teammate"@
    }
}

/// Whether the predicate of the catalog entry at index `i` holds of
/// (state, event).
pub open spec fn spec_unlocked(i: int, s: StateModel, e: Event) -> bool {
    if i == 0 {
        s.commits_total >= 1
    } else if i == 1 {
        s.commits_total >= 10
    } else if i == 2 {
        s.commits_total >= 50
    } else if i == 3 {
        s.commits_total >= 100
    } else if i == 4 {
        s.commit_streak_days >= 5
    } else if i == 5 {
        s.commit_streak_days >= 10
    } else if i == 6 {
        s.commit_streak_days >= 25
    } else if i == 7 {
        e.event == EventKind::GitPush
    } else if i == 8 {
        &&& e.event == EventKind::PostToolUse
        &&& match e.tool {
            Some(t) => t@ == "Bash"@,
            None => false,
        }
        &&& spec_meta_int(e, "exit_code"@) == Some(0i64)
        &&& match s.last_bash_exit {
            Some(c) => c != 0,
            None => false,
        }
    } else if i == 9 {
        s.tools_used.len() >= 5
    } else if i == 10 {
        s.tools_used.len() >= 10
    } else if i == 11 {
        s.level >= 2
    } else if i == 12 {
        s.level >= 3
    } else if i == 13 {
        s.level >= 4
    } else if i == 14 {
        s.level >= 5
    } else if i == 15 {
        s.level >= 7
    } else if i == 16 {
        s.level >= 10
    } else if i == 17 {
        spec_model_has(s.tools_used, "Task"@)
    } else if i == 18 {
        spec_model_has(s.tools_used, "WebSearch"@)
    } else if i == 19 {
        spec_model_has(s.tools_used, "WebFetch"@)
    } else if i == 20 {
        exists|j: int|
            0 <= j < s.tools_used.len() && seq_starts_with(s.tools_used[j], "mcp__"@)
    } else if i == 21 {
        spec_model_has(s.tools_used, "NotebookEdit"@)
    } else if i == 22 {
        spec_model_has(s.tools_used, "TodoWrite"@)
    } else if i == 23 {
        spec_model_has(s.tools_used, "Skill"@)
    } else if i == 24 {
        spec_model_has(s.tools_used, "TeamCreate"@)
    } else if i == 25 {
        spec_model_has(s.tools_used, "SendMessage"@)
    } else {
        false
    }
}

/// Whether the entry at index `i` would newly unlock: its predicate holds
/// and its id is not yet in the unlocked list.
pub open spec fn spec_newly_unlocked(i: int, s: StateModel, e: Event) -> bool {
    spec_unlocked(i, s, e) && !spec_model_has(s.achievements_unlocked, spec_ach_id(i))
}

/// The catalog indices, in declaration order, of entries newly unlocked by
/// this event among the first `n` entries.
pub open spec fn spec_check_upto(s: StateModel, e: Event, n: int) -> Seq<int>
    decreases n,
{
    if n <= 0 {
        Seq::empty()
    } else if spec_newly_unlocked(n - 1, s, e) {
        spec_check_upto(s, e, n - 1).push(n - 1)
    } else {
        spec_check_upto(s, e, n - 1)
    }
}

/// The fixed achievement catalog, in declaration order.
pub fn registry() -> (r: Vec<Achievement>)
    ensures
        r@.len() == ACHIEVEMENT_COUNT,
        forall|i: int|
            0 <= i < ACHIEVEMENT_COUNT ==> (#[trigger] r@[i]).id@ == spec_ach_id(i)
                && r@[i].name@ == spec_ach_name(i) && r@[i].description@ == spec_ach_desc(i),
{
    let mut r: Vec<Achievement> = Vec::new();
    r.push(Achievement { id: "first_commit", name: "First Commit", description: "Made your first git commit" });
    r.push(Achievement { id: "commit_10", name: "Getting Committed", description: "10 commits total" });
    r.push(Achievement { id: "commit_50", name: "Commit Machine", description: "50 commits total" });
    r.push(Achievement { id: "commit_100", name: "Centurion", description: "100 commits total" });
    r.push(Achievement { id: "streak_5", name: "On a Roll", description: "5-day commit streak" });
    r.push(Achievement { id: "streak_10", name: "Unstoppable", description: "10-day commit streak" });
    r.push(Achievement { id: "streak_25", name: "Dedicated", description: "25-day commit streak" });
    r.push(Achievement { id: "first_push", name: "Shipped It", description: "First git push" });
    r.push(Achievement { id: "test_whisperer", name: "Test Whisperer", description: "Fixed a failing bash command" });
    r.push(Achievement { id: "tool_explorer", name: "Tool Explorer", description: "Used 5 different tools" });
    r.push(Achievement { id: "tool_master", name: "Tool Master", description: "Used 10 different tools" });
    r.push(Achievement { id: "level_2", name: "Prompt Whisperer", description: "Reached level 2" });
    r.push(Achievement { id: "level_3", name: "Vibe Architect", description: "Reached level 3" });
    r.push(Achievement { id: "level_4", name: "Flow State Master", description: "Reached level 4" });
    r.push(Achievement { id: "level_5", name: "Code Sensei", description: "Reached level 5" });
    r.push(Achievement { id: "level_7", name: "Vibe Lord", description: "Reached level 7" });
    r.push(Achievement { id: "level_10", name: "Singularity", description: "Reached level 10" });
    r.push(Achievement { id: "first_subagent", name: "Delegator", description: "Spawned a subagent with Task tool" });
    r.push(Achievement { id: "web_surfer", name: "Web Surfer", description: "Used WebSearch" });
    r.push(Achievement { id: "researcher", name: "Deep Researcher", description: "Used WebFetch" });
    r.push(Achievement { id: "mcp_pioneer", name: "MCP Pioneer", description: "Used an MCP tool" });
    r.push(Achievement { id: "notebook_scientist", name: "Data Scientist", description: "Used NotebookEdit" });
    r.push(Achievement { id: "todo_master", name: "Organized", description: "Used TodoWrite" });
    r.push(Achievement { id: "first_skill", name: "Skilled Up", description: "Invoked a skill or slash command" });
    r.push(Achievement { id: "first_team", name: "Team Player", description: "Created an agent team" });
    r.push(Achievement { id: "team_communicator", name: "Team Lead", description: "Sent a message to a teammate" });
    r
}

/// Whether any recorded tool name starts with the MCP prefix.
fn any_tool_has_mcp_prefix(s: &State) -> (r: bool)
    ensures
        r == exists|j: int|
            0 <= j < s.model().tools_used.len() && seq_starts_with(
                s.model().tools_used[j],
                "mcp__"@,
            ),
{
    let p = chars_of("mcp__");
    let n: usize = s.tools_used.len();
    let mut i: usize = 0;
    while i < n
        invariant
            i <= n,
            n == s.tools_used@.len(),
            p@ == "mcp__"@,
            forall|j: int| 0 <= j < i ==> !seq_starts_with(s.model().tools_used[j], "mcp__"@),
        decreases n - i,
    {
        let t = chars_of(s.tools_used[i].as_str());
        if starts_with_chars(&t, &p) {
            proof {
                assert(seq_starts_with(s.model().tools_used[i as int], "mcp__"@));
            }
            return true;
        }
        i = i + 1;
    }
    false
}

/// Evaluate the predicate of the catalog entry at index `i`.
fn unlocked_at(i: usize, s: &State, e: &Event) -> (r: bool)
    requires
        i < ACHIEVEMENT_COUNT,
    ensures
        r == spec_unlocked(i as int, s.model(), *e),
{
    proof {
        lemma_has_str_model(s.tools_used@, "Task"@);
        lemma_has_str_model(s.tools_used@, "WebSearch"@);
        lemma_has_str_model(s.tools_used@, "WebFetch"@);
        lemma_has_str_model(s.tools_used@, "NotebookEdit"@);
        lemma_has_str_model(s.tools_used@, "TodoWrite"@);
        lemma_has_str_model(s.tools_used@, "Skill"@);
        lemma_has_str_model(s.tools_used@, "TeamCreate"@);
        lemma_has_str_model(s.tools_used@, "SendMessage"@);
    }
    match i {
        0 => s.commits_total >= 1,
        1 => s.commits_total >= 10,
        2 => s.commits_total >= 50,
        3 => s.commits_total >= 100,
        4 => s.commit_streak_days >= 5,
        5 => s.commit_streak_days >= 10,
        6 => s.commit_streak_days >= 25,
        7 => e.event == EventKind::GitPush,
        8 => {
            let tool_is_bash = match &e.tool {
                Some(t) => str_eq(t.as_str(), "Bash"),
                None => false,
            };
            let exit_zero = match e.meta_int("exit_code") {
                Some(c) => c == 0,
                None => false,
            };
            let prev_failed = match s.last_bash_exit {
                Some(c) => c != 0,
                None => false,
            };
            e.event == EventKind::PostToolUse && tool_is_bash && exit_zero && prev_failed
        },
        9 => s.tools_used.len() >= 5,
        10 => s.tools_used.len() >= 10,
        11 => s.level >= 2,
        12 => s.level >= 3,
        13 => s.level >= 4,
        14 => s.level >= 5,
        15 => s.level >= 7,
        16 => s.level >= 10,
        17 => contains_str(&s.tools_used, "Task"),
        18 => contains_str(&s.tools_used, "WebSearch"),
        19 => contains_str(&s.tools_used, "WebFetch"),
        20 => any_tool_has_mcp_prefix(s),
        21 => contains_str(&s.tools_used, "NotebookEdit"),
        22 => contains_str(&s.tools_used, "TodoWrite"),
        23 => contains_str(&s.tools_used, "Skill"),
        24 => contains_str(&s.tools_used, "TeamCreate"),
        _ => contains_str(&s.tools_used, "SendMessage"),
    }
}

/// Walk the catalog in declaration order and return the entries newly
/// unlocked by this event. An id already present in
/// `state.achievements_unlocked` is never returned.
pub fn check_achievements(state: &State, event: &Event) -> (r: Vec<Achievement>)
    ensures
        ({
            let idxs = spec_check_upto(state.model(), *event, ACHIEVEMENT_COUNT as int);
            &&& r@.len() == idxs.len()
            &&& forall|j: int|
                0 <= j < r@.len() ==> (#[trigger] r@[j]).id@ == spec_ach_id(idxs[j])
                    && r@[j].name@ == spec_ach_name(idxs[j]) && r@[j].description@
                    == spec_ach_desc(idxs[j])
        }),
        forall|j: int|
            0 <= j < r@.len() ==> !spec_model_has(
                state.model().achievements_unlocked,
                (#[trigger] r@[j]).id@,
            ),
{
    let reg = registry();
    let mut out: Vec<Achievement> = Vec::new();
    let mut i: usize = 0;
    while i < ACHIEVEMENT_COUNT
        invariant
            i <= ACHIEVEMENT_COUNT,
            reg@.len() == ACHIEVEMENT_COUNT,
            forall|k: int|
                0 <= k < ACHIEVEMENT_COUNT ==> (#[trigger] reg@[k]).id@ == spec_ach_id(k)
                    && reg@[k].name@ == spec_ach_name(k) && reg@[k].description@
                    == spec_ach_desc(k),
            ({
                let idxs = spec_check_upto(state.model(), *event, i as int);
                &&& out@.len() == idxs.len()
                &&& forall|j: int|
                    0 <= j < out@.len() ==> (#[trigger] out@[j]).id@ == spec_ach_id(idxs[j])
                        && out@[j].name@ == spec_ach_name(idxs[j]) && out@[j].description@
                        == spec_ach_desc(idxs[j])
            }),
            forall|j: int|
                0 <= j < out@.len() ==> !spec_model_has(
                    state.model().achievements_unlocked,
                    (#[trigger] out@[j]).id@,
                ),
        decreases ACHIEVEMENT_COUNT - i,
    {
        let a = reg[i];
        proof {
            lemma_has_str_model(state.achievements_unlocked@, a.id@);
        }
        if !contains_str(&state.achievements_unlocked, a.id) && unlocked_at(i, state, event) {
            out.push(a);
        }
        i = i + 1;
    }
    out
}

} // verus!
