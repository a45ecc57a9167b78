use cwinner::celebration::CelebrationLevel;
use cwinner::config::Config;
use cwinner::event::{Event, EventKind, MetaValue};
use cwinner::processor::{finalize_intensity, process_event_with_state};
use cwinner::state::State;

const TODAY: i64 = 738000;

fn make_event(kind: EventKind) -> Event {
    Event {
        event: kind,
        tool: None,
        session_id: "s1".into(),
        tty_path: "/dev/null".into(),
        metadata: Vec::new(),
    }
}

#[test]
fn test_process_event_git_commit_increments_commits() {
    let mut state = State::default();
    let cfg = Config::default();
    let event = make_event(EventKind::GitCommit);
    process_event_with_state(&event, &mut state, &cfg, TODAY);
    assert_eq!(state.commits_total, 1);
}

#[test]
fn test_first_commit_achievement_fires() {
    let mut state = State::default();
    let cfg = Config::default();
    let event = make_event(EventKind::GitCommit);

    process_event_with_state(&event, &mut state, &cfg, TODAY);

    assert!(state.achievements_unlocked.iter().any(|id| id == "first_commit"));
}

#[test]
fn test_level_up_achievement_fires() {
    let mut state = State::default();
    state.xp = 95; // just below level 2 (100 XP)
    let cfg = Config::default();
    let event = make_event(EventKind::GitCommit); // adds 25 XP (milestone) -> level 2

    process_event_with_state(&event, &mut state, &cfg, TODAY);

    assert_eq!(state.level, 2);
    assert!(state.achievements_unlocked.iter().any(|id| id == "level_2"));
}

#[test]
fn test_streak_bonus_applied_in_process_event() {
    let mut state = State::default();
    state.commit_streak_days = 5;
    state.last_commit_date = Some(TODAY - 1);
    let cfg = Config::default();
    let event = make_event(EventKind::GitCommit);

    process_event_with_state(&event, &mut state, &cfg, TODAY);

    // 25 XP * 2 streak bonus = 50 XP
    assert_eq!(state.xp, 50);
}

#[test]
fn test_streak_milestone_upgrades_to_epic() {
    let mut state = State::default();
    // Set up: streak at 4, yesterday was last commit
    state.last_commit_date = Some(TODAY - 1);
    state.commit_streak_days = 4;
    let cfg = Config::default();
    let event = make_event(EventKind::GitCommit);

    let (level, _, is_streak) = process_event_with_state(&event, &mut state, &cfg, TODAY);

    assert_eq!(level, CelebrationLevel::Epic);
    assert!(is_streak);
    assert_eq!(state.commit_streak_days, 5);
}

#[test]
fn test_no_streak_milestone_at_non_milestone() {
    let mut state = State::default();
    state.last_commit_date = Some(TODAY - 1);
    state.commit_streak_days = 5; // going to 6, not a milestone
    let cfg = Config::default();
    let event = make_event(EventKind::GitCommit);

    let (_, _, is_streak) = process_event_with_state(&event, &mut state, &cfg, TODAY);

    assert!(!is_streak);
}

#[test]
fn test_process_event_returns_is_streak_false_for_non_commit() {
    let mut state = State::default();
    let cfg = Config::default();
    let event = make_event(EventKind::TaskCompleted);

    let (_, _, is_streak) = process_event_with_state(&event, &mut state, &cfg, TODAY);

    assert!(!is_streak);
}

#[test]
fn test_fresh_commit_scenario() {
    // Fresh state, git-commit event, streak bonus inactive, milestone
    // intensity Medium (25 XP): xp 25, level 1, one commit, streak one day,
    // and the first-commit achievement present.
    let mut state = State::default();
    let cfg = Config::default();
    assert_eq!(cfg.intensity.milestone, cwinner::config::Intensity::Medium);
    let event = make_event(EventKind::GitCommit);

    let (level, name, is_streak) = process_event_with_state(&event, &mut state, &cfg, TODAY);

    assert_eq!(state.xp, 25);
    assert_eq!(state.level, 1);
    assert_eq!(state.commits_total, 1);
    assert_eq!(state.commit_streak_days, 1);
    assert!(state.achievements_unlocked.iter().any(|id| id == "first_commit"));
    assert_eq!(level, CelebrationLevel::Medium);
    assert_eq!(name.as_deref(), Some("First Commit"));
    assert!(!is_streak);
}

#[test]
fn test_level_up_unlock_in_same_call() {
    // xp 95 with the level-2 threshold at 100: any event awarding at least
    // 5 XP raises the level to 2 and newly unlocks level_2 in the same call.
    let mut state = State::default();
    state.xp = 95;
    state.level = 1;
    let cfg = Config::default();
    let event = Event {
        event: EventKind::PostToolUse,
        tool: Some("Write".into()),
        session_id: "s1".into(),
        tty_path: "/dev/null".into(),
        metadata: Vec::new(),
    };

    process_event_with_state(&event, &mut state, &cfg, TODAY); // Mini: 5 XP

    assert_eq!(state.xp, 100);
    assert_eq!(state.level, 2);
    assert!(state.achievements_unlocked.iter().any(|id| id == "level_2"));
}

#[test]
fn test_exit_code_updates_after_achievement_check() {
    // A Bash success after a failure unlocks test_whisperer, and only then
    // does the stored exit code move to the new value.
    let mut state = State::default();
    state.last_bash_exit = Some(2);
    let cfg = Config::default();
    let event = Event {
        event: EventKind::PostToolUse,
        tool: Some("Bash".into()),
        session_id: "s1".into(),
        tty_path: "/dev/null".into(),
        metadata: vec![("exit_code".into(), MetaValue::Int(0))],
    };

    process_event_with_state(&event, &mut state, &cfg, TODAY);

    assert!(state.achievements_unlocked.iter().any(|id| id == "test_whisperer"));
    assert_eq!(state.last_bash_exit, Some(0));
}

#[test]
fn test_finalize_session_end_with_commits_is_epic() {
    let level = finalize_intensity(CelebrationLevel::Mini, EventKind::SessionEnd, 2, None);
    assert_eq!(level, CelebrationLevel::Epic);
}

#[test]
fn test_finalize_session_end_without_commits_keeps_level() {
    let level = finalize_intensity(CelebrationLevel::Mini, EventKind::SessionEnd, 0, None);
    assert_eq!(level, CelebrationLevel::Mini);
}

#[test]
fn test_finalize_folds_duration_level_by_max() {
    let level = finalize_intensity(
        CelebrationLevel::Mini,
        EventKind::PostToolUse,
        0,
        Some(CelebrationLevel::Medium),
    );
    assert_eq!(level, CelebrationLevel::Medium);
    let level2 = finalize_intensity(
        CelebrationLevel::Epic,
        EventKind::PostToolUse,
        0,
        Some(CelebrationLevel::Medium),
    );
    assert_eq!(level2, CelebrationLevel::Epic);
}
