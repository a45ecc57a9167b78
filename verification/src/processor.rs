//! The event processor: orchestrates the classifier, the state store and
//! the achievement checker for one event, under the daemon's state lock.
//!
//! The full transition is pinned down over `StateModel`, so the daemon can
//! rely on exactly what one event does to the persisted state.

use vstd::prelude::*;
use crate::achievements::{
    check_achievements, spec_ach_id, spec_ach_name, spec_check_upto, ACHIEVEMENT_COUNT,
};
use crate::celebration::{
    decide, spec_decide, spec_level_max, spec_xp_for_event, spec_xp_for_level, xp_for_event,
    CelebrationLevel,
};
use crate::config::Config;
use crate::event::{spec_meta_int, Event, EventKind};
use crate::state::{
    lemma_has_str_model, spec_level_name, spec_level_of, spec_model_has, State, StateModel,
};

verus! {

/// The XP award for an event at celebration level `l`, with the streak
/// bonus taken from the state before the event.
pub open spec fn spec_model_award(l: CelebrationLevel, m: StateModel) -> u32 {
    let base = spec_xp_for_level(l);
    if base > 0 && m.commit_streak_days >= 5 {
        (2 * base) as u32
    } else {
        base
    }
}

/// The model after adding `amount` XP and recomputing the level fields.
pub open spec fn spec_model_add_xp(m: StateModel, amount: u32) -> StateModel {
    let nx = (m.xp + amount) as u32;
    StateModel {
        xp: nx,
        level: spec_level_of(nx),
        level_name: spec_level_name(spec_level_of(nx)),
        ..m
    }
}

/// Whether a commit on day `today` would be the first of that day.
pub open spec fn spec_model_first_today(m: StateModel, today: i64) -> bool {
    match m.last_commit_date {
        Some(d) => d != today,
        None => true,
    }
}

/// The commit streak after recording a commit on day `today`.
pub open spec fn spec_model_new_streak(m: StateModel, today: i64) -> u32 {
    if spec_model_first_today(m, today) {
        if today > i64::MIN && m.last_commit_date == Some((today - 1) as i64) {
            (m.commit_streak_days + 1) as u32
        } else {
            1u32
        }
    } else {
        m.commit_streak_days
    }
}

/// The streak milestone reported by recording a commit on day `today`.
pub open spec fn spec_model_streak_milestone(m: StateModel, today: i64) -> Option<u32> {
    let ns = spec_model_new_streak(m, today);
    if ns != m.commit_streak_days && (ns == 5 || ns == 10 || ns == 25 || ns == 100) {
        Some(ns)
    } else {
        None
    }
}

/// The model after recording a commit on day `today`.
pub open spec fn spec_model_record_commit(m: StateModel, today: i64) -> StateModel {
    StateModel {
        commits_total: (m.commits_total + 1) as u32,
        commit_streak_days: spec_model_new_streak(m, today),
        last_commit_date: if spec_model_first_today(m, today) {
            Some(today)
        } else {
            m.last_commit_date
        },
        ..m
    }
}

/// The model after noting a tool use.
pub open spec fn spec_model_record_tool(m: StateModel, tool: Seq<char>) -> StateModel {
    if spec_model_has(m.tools_used, tool) {
        m
    } else {
        StateModel { tools_used: m.tools_used.push(tool), ..m }
    }
}

/// Unlock the catalog entries at `idxs` in order, appending each id not
/// already present.
pub open spec fn spec_unlock_fold(a: Seq<Seq<char>>, idxs: Seq<int>) -> Seq<Seq<char>>
    decreases idxs.len(),
{
    if idxs.len() == 0 {
        a
    } else {
        let a1 = if spec_model_has(a, spec_ach_id(idxs[0])) {
            a
        } else {
            a.push(spec_ach_id(idxs[0]))
        };
        spec_unlock_fold(a1, idxs.drop_first())
    }
}

proof fn lemma_unlock_fold_snoc(a: Seq<Seq<char>>, idxs: Seq<int>, x: int)
    ensures
        spec_unlock_fold(a, idxs.push(x)) == ({
            let b = spec_unlock_fold(a, idxs);
            if spec_model_has(b, spec_ach_id(x)) {
                b
            } else {
                b.push(spec_ach_id(x))
            }
        }),
    decreases idxs.len(),
{
    if idxs.len() == 0 {
        assert(idxs.push(x)[0] == x);
        let a1 = if spec_model_has(a, spec_ach_id(x)) {
            a
        } else {
            a.push(spec_ach_id(x))
        };
        let d = idxs.push(x).drop_first();
        assert(d.len() == 0);
        assert(spec_unlock_fold(a1, d) == a1);
        assert(spec_unlock_fold(a, idxs.push(x)) == a1);
        assert(spec_unlock_fold(a, idxs) == a);
    } else {
        assert(idxs.push(x)[0] == idxs[0]);
        assert(idxs.push(x).drop_first() =~= idxs.drop_first().push(x));
        let a1 = if spec_model_has(a, spec_ach_id(idxs[0])) {
            a
        } else {
            a.push(spec_ach_id(idxs[0]))
        };
        assert(spec_unlock_fold(a, idxs.push(x)) == spec_unlock_fold(
            a1,
            idxs.drop_first().push(x),
        ));
        assert(spec_unlock_fold(a, idxs) == spec_unlock_fold(a1, idxs.drop_first()));
        lemma_unlock_fold_snoc(a1, idxs.drop_first(), x);
    }
}

/// The model after the XP phase: the award for the classified level is
/// applied when positive.
pub open spec fn spec_xp_phase(m: StateModel, e: Event, cfg: Config) -> StateModel {
    let award = spec_model_award(spec_decide(e, cfg), m);
    if award > 0 {
        spec_model_add_xp(m, award)
    } else {
        m
    }
}

/// Whether processing the event reports a streak milestone.
pub open spec fn spec_streak_flag(m: StateModel, e: Event, cfg: Config, today: i64) -> bool {
    e.event == EventKind::GitCommit && spec_model_streak_milestone(
        spec_xp_phase(m, e, cfg),
        today,
    ) is Some
}

/// The celebration level returned for the event: the classifier's level,
/// escalated to Epic by a streak milestone.
pub open spec fn spec_process_level(
    m: StateModel,
    e: Event,
    cfg: Config,
    today: i64,
) -> CelebrationLevel {
    if spec_streak_flag(m, e, cfg, today) {
        CelebrationLevel::Epic
    } else {
        spec_decide(e, cfg)
    }
}

/// The state the achievement checker sees: after the XP, commit and tool
/// phases, before the shell exit code is updated.
pub open spec fn spec_mid_state(m: StateModel, e: Event, cfg: Config, today: i64) -> StateModel {
    let m1 = spec_xp_phase(m, e, cfg);
    let m2 = if e.event == EventKind::GitCommit {
        spec_model_record_commit(m1, today)
    } else {
        m1
    };
    match e.tool {
        Some(t) => spec_model_record_tool(m2, t@),
        None => m2,
    }
}

/// The catalog indices newly unlocked by processing the event.
pub open spec fn spec_new_achievements(m: StateModel, e: Event, cfg: Config, today: i64) -> Seq<
    int,
> {
    spec_check_upto(spec_mid_state(m, e, cfg, today), e, ACHIEVEMENT_COUNT as int)
}

/// The display name surfaced to the renderer: that of the first newly
/// unlocked achievement, if any.
pub open spec fn spec_process_achievement_name(
    m: StateModel,
    e: Event,
    cfg: Config,
    today: i64,
) -> Option<Seq<char>> {
    let idxs = spec_new_achievements(m, e, cfg, today);
    if idxs.len() > 0 {
        Some(spec_ach_name(idxs[0]))
    } else {
        None
    }
}

/// The state after processing one event: XP, commit, tool use, achievement
/// unlocks, and finally the shell exit code, in that order.
pub open spec fn spec_process_state(
    m: StateModel,
    e: Event,
    cfg: Config,
    today: i64,
) -> StateModel {
    let mid = spec_mid_state(m, e, cfg, today);
    let idxs = spec_new_achievements(m, e, cfg, today);
    let m4 = StateModel {
        achievements_unlocked: spec_unlock_fold(mid.achievements_unlocked, idxs),
        ..mid
    };
    if e.event == EventKind::PostToolUse {
        match spec_meta_int(e, "exit_code"@) {
            Some(c) => StateModel { last_bash_exit: Some(c), ..m4 },
            None => m4,
        }
    } else {
        m4
    }
}

/// Process one event against the state: classify it, award XP, record
/// commits and tool use, unlock achievements (checked strictly before the
/// shell exit code is updated), and report the final celebration level,
/// the first newly unlocked achievement's name, and whether a streak
/// milestone fired. The caller persists the state and runs side effects.
pub fn process_event_with_state(event: &Event, state: &mut State, cfg: &Config, today: i64) -> (r:
    (CelebrationLevel, Option<String>, bool))
    requires
        old(state).xp + 200 <= u32::MAX,
        old(state).commits_total < u32::MAX,
        old(state).commit_streak_days < u32::MAX,
        today > i64::MIN,
    ensures
        final(state).model() == spec_process_state(old(state).model(), *event, *cfg, today),
        r.0 == spec_process_level(old(state).model(), *event, *cfg, today),
        match r.1 {
            Some(n) => spec_process_achievement_name(old(state).model(), *event, *cfg, today)
                == Some(n@),
            None => spec_process_achievement_name(
                old(state).model(),
                *event,
                *cfg,
                today,
            ) is None,
        },
        r.2 == spec_streak_flag(old(state).model(), *event, *cfg, today),
{
    let ghost m0 = old(state).model();
    let mut level = decide(event, state, cfg);
    let xp = xp_for_event(&level, state);
    proof {
        assert(xp == spec_model_award(spec_decide(*event, *cfg), m0));
        assert(xp <= 200);
    }
    if xp > 0 {
        state.add_xp(xp);
    }
    proof {
        assert(state.model() =~= spec_xp_phase(m0, *event, *cfg));
    }
    let ghost m1 = state.model();

    let mut is_streak_milestone = false;
    if event.event == EventKind::GitCommit {
        let commit_result = state.record_commit(today);
        if commit_result.streak_milestone.is_some() {
            is_streak_milestone = true;
            level = CelebrationLevel::Epic;
        }
        proof {
            assert(state.model() =~= spec_model_record_commit(m1, today));
        }
    }
    let ghost m2 = state.model();

    if let Some(tool) = &event.tool {
        proof {
            lemma_has_str_model(state.tools_used@, tool@);
        }
        let ghost pre_tools = state.tools_used@;
        let was_new = state.record_tool_use(tool.as_str());
        proof {
            if was_new {
                crate::state::lemma_views_push(pre_tools, state.tools_used@.last());
            }
            assert(state.model() =~= spec_model_record_tool(m2, tool@));
        }
    }
    proof {
        assert(state.model() =~= spec_mid_state(m0, *event, *cfg, today));
    }
    let ghost mid = state.model();
    let ghost idxs = spec_new_achievements(m0, *event, *cfg, today);

    // Check achievements before last_bash_exit moves: the exit-transition
    // predicate reads the previous value.
    let newly = check_achievements(state, event);
    let achievement_name: Option<String> = if newly.len() > 0 {
        Some(newly[0].name.to_owned())
    } else {
        None
    };
    let mut j: usize = 0;
    proof {
        assert(idxs.subrange(0, 0) =~= Seq::<int>::empty());
    }
    while j < newly.len()
        invariant
            j <= newly@.len(),
            newly@.len() == idxs.len(),
            forall|k: int|
                0 <= k < newly@.len() ==> (#[trigger] newly@[k]).id@ == spec_ach_id(idxs[k]),
            state.model() == (StateModel {
                achievements_unlocked: spec_unlock_fold(
                    mid.achievements_unlocked,
                    idxs.subrange(0, j as int),
                ),
                ..mid
            }),
        decreases newly@.len() - j,
    {
        proof {
            lemma_has_str_model(state.achievements_unlocked@, newly@[j as int].id@);
            lemma_unlock_fold_snoc(mid.achievements_unlocked, idxs.subrange(0, j as int), idxs[j as int]);
            assert(idxs.subrange(0, j + 1 as int) =~= idxs.subrange(0, j as int).push(
                idxs[j as int],
            ));
        }
        let ghost pre_ach = state.achievements_unlocked@;
        let was_new = state.unlock_achievement(newly[j].id);
        proof {
            if was_new {
                crate::state::lemma_views_push(pre_ach, state.achievements_unlocked@.last());
            }
            assert(state.model() =~= (StateModel {
                achievements_unlocked: spec_unlock_fold(
                    mid.achievements_unlocked,
                    idxs.subrange(0, j + 1 as int),
                ),
                ..mid
            }));
        }
        j = j + 1;
    }
    proof {
        assert(idxs.subrange(0, idxs.len() as int) =~= idxs);
    }

    // Update the shell exit code strictly after the achievement check.
    if event.event == EventKind::PostToolUse {
        if let Some(code) = event.meta_int("exit_code") {
            state.last_bash_exit = Some(code);
        }
    }
    proof {
        assert(state.model() =~= spec_process_state(m0, *event, *cfg, today));
    }
    (level, achievement_name, is_streak_milestone)
}

/// The intensity handed to the side-effect dispatch: a session-end event
/// for a session that recorded at least one commit always celebrates Epic,
/// and a duration-milestone level folds in by maximum.
pub open spec fn spec_finalize_intensity(
    level: CelebrationLevel,
    kind: EventKind,
    session_commits: u32,
    duration_level: Option<CelebrationLevel>,
) -> CelebrationLevel {
    let l1 = if kind == EventKind::SessionEnd && session_commits >= 1 {
        CelebrationLevel::Epic
    } else {
        level
    };
    match duration_level {
        Some(d) => spec_level_max(l1, d),
        None => l1,
    }
}

/// Fold the session-end override and the duration-milestone level into the
/// processor's intensity.
pub fn finalize_intensity(
    level: CelebrationLevel,
    kind: EventKind,
    session_commits: u32,
    duration_level: Option<CelebrationLevel>,
) -> (r: CelebrationLevel)
    ensures
        r == spec_finalize_intensity(level, kind, session_commits, duration_level),
{
    let l1 = if kind == EventKind::SessionEnd && session_commits >= 1 {
        CelebrationLevel::Epic
    } else {
        level
    };
    match duration_level {
        Some(d) => crate::celebration::level_max(l1, d),
        None => l1,
    }
}

} // verus!
