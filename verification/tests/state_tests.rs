use cwinner::state::State;

const TODAY: i64 = 738000;

#[test]
fn test_new_state_defaults() {
    let s = State::default();
    assert_eq!(s.xp, 0);
    assert_eq!(s.level, 1);
    assert_eq!(s.level_name, "Vibe Initiate");
}

#[test]
fn test_add_xp_no_level_up() {
    let mut s = State::default();
    s.add_xp(50);
    assert_eq!(s.xp, 50);
    assert_eq!(s.level, 1);
}

#[test]
fn test_add_xp_level_up() {
    let mut s = State::default();
    s.add_xp(100);
    assert_eq!(s.level, 2);
    assert_eq!(s.level_name, "Prompt Whisperer");
}

#[test]
fn test_commit_streak() {
    let mut s = State::default();
    let result = s.record_commit(TODAY);
    assert_eq!(s.commits_total, 1);
    assert_eq!(s.commit_streak_days, 1);
    assert!(result.first_today);
    assert_eq!(result.streak_milestone, None);
}

#[test]
fn test_streak_milestone_at_5() {
    let mut s = State::default();
    // Simulate streak at 4, then commit extends to 5
    s.last_commit_date = Some(TODAY - 1);
    s.commit_streak_days = 4;
    let result = s.record_commit(TODAY);
    assert_eq!(s.commit_streak_days, 5);
    assert_eq!(result.streak_milestone, Some(5));
}

#[test]
fn test_streak_milestone_at_10() {
    let mut s = State::default();
    s.last_commit_date = Some(TODAY - 1);
    s.commit_streak_days = 9;
    let result = s.record_commit(TODAY);
    assert_eq!(s.commit_streak_days, 10);
    assert_eq!(result.streak_milestone, Some(10));
}

#[test]
fn test_streak_milestone_at_25() {
    let mut s = State::default();
    s.last_commit_date = Some(TODAY - 1);
    s.commit_streak_days = 24;
    let result = s.record_commit(TODAY);
    assert_eq!(s.commit_streak_days, 25);
    assert_eq!(result.streak_milestone, Some(25));
}

#[test]
fn test_streak_milestone_at_100() {
    let mut s = State::default();
    s.last_commit_date = Some(TODAY - 1);
    s.commit_streak_days = 99;
    let result = s.record_commit(TODAY);
    assert_eq!(s.commit_streak_days, 100);
    assert_eq!(result.streak_milestone, Some(100));
}

#[test]
fn test_no_streak_milestone_at_6() {
    let mut s = State::default();
    s.last_commit_date = Some(TODAY - 1);
    s.commit_streak_days = 5;
    let result = s.record_commit(TODAY);
    assert_eq!(s.commit_streak_days, 6);
    assert_eq!(result.streak_milestone, None);
}

#[test]
fn test_tool_first_use() {
    let mut s = State::default();
    assert!(s.record_tool_use("Task"));
    assert!(!s.record_tool_use("Task"));
}

#[test]
fn test_second_commit_same_day_keeps_streak() {
    let mut s = State::default();
    let first = s.record_commit(TODAY);
    let second = s.record_commit(TODAY);
    assert!(first.first_today);
    assert!(!second.first_today);
    assert_eq!(s.commits_total, 2);
    assert_eq!(s.commit_streak_days, 1);
    assert_eq!(second.streak_milestone, None);
}

#[test]
fn test_streak_resets_after_gap() {
    let mut s = State::default();
    s.last_commit_date = Some(TODAY - 3);
    s.commit_streak_days = 7;
    let result = s.record_commit(TODAY);
    assert!(result.first_today);
    assert_eq!(s.commit_streak_days, 1);
    assert_eq!(result.streak_milestone, None);
}

#[test]
fn test_level_monotone_over_xp_gains() {
    let mut s = State::default();
    let mut last_level = s.level;
    for gain in [10u32, 0, 90, 300, 100, 1000, 3500, 5000, 10000, 20000, 15000, 25000, 1] {
        s.add_xp(gain);
        assert!(s.level >= last_level, "level dropped after adding {} xp", gain);
        last_level = s.level;
    }
}

#[test]
fn test_unlock_achievement_no_duplicates() {
    let mut s = State::default();
    assert!(s.unlock_achievement("first_commit"));
    assert!(!s.unlock_achievement("first_commit"));
    assert_eq!(s.achievements_unlocked.len(), 1);
}

#[test]
fn test_level_table_names() {
    let mut s = State::default();
    s.add_xp(500);
    assert_eq!(s.level, 3);
    assert_eq!(s.level_name, "Vibe Architect");
    s.add_xp(74500);
    assert_eq!(s.level, 10);
    assert_eq!(s.level_name, "Singularity");
}
