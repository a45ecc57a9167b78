use cwinner::celebration::CelebrationLevel;
use cwinner::session::SessionInfo;
use std::collections::HashMap;

#[test]
fn test_session_info_new_has_no_milestones_fired() {
    let info = SessionInfo::default();
    assert_eq!(info.commits, 0);
    assert!(info.duration_milestones_fired.is_empty());
}

#[test]
fn test_duration_milestone_not_reached_before_60_min() {
    // just started
    let mut info = SessionInfo::with_started_at(0);
    let result = info.check_duration_milestones(0);
    assert!(result.is_none());
    assert!(info.duration_milestones_fired.is_empty());
}

#[test]
fn test_duration_milestone_1h_fires_medium() {
    // Session started 61 minutes ago
    let mut info = SessionInfo::with_started_at(0);
    let result = info.check_duration_milestones(61 * 60);
    assert_eq!(result, Some(CelebrationLevel::Medium));
    assert!(info.duration_milestones_fired.contains(&60));
}

#[test]
fn test_duration_milestone_1h_does_not_refire() {
    let mut info = SessionInfo::with_started_at(0);

    // First check fires
    let result1 = info.check_duration_milestones(61 * 60);
    assert_eq!(result1, Some(CelebrationLevel::Medium));

    // Second check does NOT refire
    let result2 = info.check_duration_milestones(61 * 60);
    assert!(result2.is_none());
}

#[test]
fn test_duration_milestone_3h_fires_medium() {
    let mut info = SessionInfo::with_started_at(0);
    // Pre-fire the 1h milestone so we only see the 3h one
    info.duration_milestones_fired.push(60);

    let result = info.check_duration_milestones(181 * 60);
    assert_eq!(result, Some(CelebrationLevel::Medium));
    assert!(info.duration_milestones_fired.contains(&180));
}

#[test]
fn test_duration_milestone_8h_fires_epic() {
    let mut info = SessionInfo::with_started_at(0);
    // Pre-fire earlier milestones
    info.duration_milestones_fired.push(60);
    info.duration_milestones_fired.push(180);

    let result = info.check_duration_milestones(481 * 60);
    assert_eq!(result, Some(CelebrationLevel::Epic));
    assert!(info.duration_milestones_fired.contains(&480));
}

#[test]
fn test_duration_milestone_multiple_at_once_returns_highest() {
    // Session ran 4 hours, no milestones fired yet
    let mut info = SessionInfo::with_started_at(0);

    // Both 60min and 180min crossed; should return Medium (highest of the two)
    let result = info.check_duration_milestones(241 * 60);
    assert_eq!(result, Some(CelebrationLevel::Medium));
    assert!(info.duration_milestones_fired.contains(&60));
    assert!(info.duration_milestones_fired.contains(&180));
}

#[test]
fn test_duration_milestone_all_three_at_once_returns_epic() {
    // Session ran 9 hours, no milestones fired
    let mut info = SessionInfo::with_started_at(0);

    let result = info.check_duration_milestones(541 * 60);
    assert_eq!(result, Some(CelebrationLevel::Epic));
    assert_eq!(info.duration_milestones_fired.len(), 3);
}

#[test]
fn test_celebration_level_max_picks_higher() {
    assert_eq!(CelebrationLevel::Off.max(CelebrationLevel::Medium), CelebrationLevel::Medium);
    assert_eq!(CelebrationLevel::Medium.max(CelebrationLevel::Epic), CelebrationLevel::Epic);
    assert_eq!(CelebrationLevel::Epic.max(CelebrationLevel::Medium), CelebrationLevel::Epic);
    assert_eq!(CelebrationLevel::Mini.max(CelebrationLevel::Medium), CelebrationLevel::Medium);
    assert_eq!(CelebrationLevel::Off.max(CelebrationLevel::Off), CelebrationLevel::Off);
}

#[test]
fn test_session_cleanup_on_session_end() {
    // Verify that SessionInfo is properly removed when SessionEnd arrives
    let mut sessions: HashMap<String, SessionInfo> = HashMap::new();
    let info = SessionInfo::default();
    sessions.insert("s1".into(), info);
    assert!(sessions.contains_key("s1"));

    // Simulate what the connection handler does on SessionEnd
    let removed = sessions.remove("s1");
    assert!(removed.is_some());
    assert!(!sessions.contains_key("s1"));
}

#[test]
fn test_session_commits_tracked_in_session_info() {
    let mut info = SessionInfo::default();
    assert_eq!(info.commits, 0);
    info.commits += 1;
    assert_eq!(info.commits, 1);
    info.commits += 1;
    assert_eq!(info.commits, 2);
}

#[test]
fn test_duration_milestone_late_session_clock() {
    // A session that began late on the daemon's clock still measures from
    // its own start.
    let mut info = SessionInfo::with_started_at(5000);
    assert!(info.check_duration_milestones(5000 + 59 * 60).is_none());
    assert_eq!(info.check_duration_milestones(5000 + 60 * 60), Some(CelebrationLevel::Medium));
}
