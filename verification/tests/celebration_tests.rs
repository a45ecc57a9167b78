use cwinner::celebration::{
    check_custom_triggers, decide, detect_git_command, has_git_commit, xp_for_event,
    xp_for_level, CelebrationLevel,
};
use cwinner::config::{Config, CustomTrigger, Intensity, TriggersConfig};
use cwinner::event::{Event, EventKind, MetaValue};
use cwinner::state::State;

fn make_event(kind: EventKind, tool: Option<&str>) -> Event {
    Event {
        event: kind,
        tool: tool.map(String::from),
        session_id: "test".into(),
        tty_path: "/dev/null".into(),
        metadata: Vec::new(),
    }
}

fn make_bash_event_with_command(command: &str, exit_code: i64) -> Event {
    let metadata = vec![
        ("exit_code".to_string(), MetaValue::Int(exit_code)),
        ("command".to_string(), MetaValue::Text(command.to_string())),
    ];
    Event {
        event: EventKind::PostToolUse,
        tool: Some("Bash".into()),
        session_id: "test".into(),
        tty_path: "/dev/null".into(),
        metadata,
    }
}

fn config_with_triggers() -> Config {
    let mut cfg = Config::default();
    cfg.triggers = TriggersConfig {
        custom: vec![
            CustomTrigger {
                name: "deploy".into(),
                pattern: "git push".into(),
                intensity: Intensity::Epic,
            },
            CustomTrigger {
                name: "test".into(),
                pattern: "cargo test".into(),
                intensity: Intensity::Medium,
            },
        ],
    };
    cfg
}

#[test]
fn test_task_completed_is_medium_by_default() {
    let cfg = Config::default();
    let state = State::default();
    let event = make_event(EventKind::TaskCompleted, None);
    let result = decide(&event, &state, &cfg);
    assert_eq!(result, CelebrationLevel::Medium);
}

#[test]
fn test_routine_write_is_mini_by_default() {
    let cfg = Config::default();
    let state = State::default();
    let event = make_event(EventKind::PostToolUse, Some("Write"));
    let result = decide(&event, &state, &cfg);
    assert_eq!(result, CelebrationLevel::Mini);
}

#[test]
fn test_git_push_is_big() {
    let cfg = Config::default();
    let state = State::default();
    let event = make_event(EventKind::GitPush, None);
    let result = decide(&event, &state, &cfg);
    assert_eq!(result, CelebrationLevel::Epic);
}

#[test]
fn test_streak_bonus_doubles_xp() {
    let mut state = State::default();
    state.commit_streak_days = 5;
    assert_eq!(xp_for_event(&CelebrationLevel::Medium, &state), 50); // 25 * 2
}

#[test]
fn test_no_streak_bonus_below_5_days() {
    let state = State::default(); // streak = 0
    assert_eq!(xp_for_event(&CelebrationLevel::Medium, &state), 25);
}

#[test]
fn test_custom_trigger_matches_deploy() {
    let cfg = config_with_triggers();
    let state = State::default();
    let event = make_bash_event_with_command("git push origin production", 0);
    let result = decide(&event, &state, &cfg);
    assert_eq!(result, CelebrationLevel::Epic);
}

#[test]
fn test_custom_trigger_matches_test() {
    let cfg = config_with_triggers();
    let state = State::default();
    let event = make_bash_event_with_command("cargo test --release", 0);
    let result = decide(&event, &state, &cfg);
    assert_eq!(result, CelebrationLevel::Medium);
}

#[test]
fn test_custom_trigger_no_match_falls_through() {
    let cfg = config_with_triggers();
    let state = State::default();
    let event = make_bash_event_with_command("ls -la", 0);
    let result = decide(&event, &state, &cfg);
    // No trigger matches, exit_code=0, no prev failure -> routine (Mini by default)
    assert_eq!(result, CelebrationLevel::Mini);
}

#[test]
fn test_custom_trigger_overrides_git_detection() {
    // Custom trigger takes priority over git command detection
    let cfg = config_with_triggers();
    let state = State::default();
    let event = make_bash_event_with_command("cargo test", 0);
    let result = decide(&event, &state, &cfg);
    assert_eq!(result, CelebrationLevel::Medium);
}

#[test]
fn test_custom_trigger_first_match_wins() {
    let mut cfg = Config::default();
    cfg.triggers = TriggersConfig {
        custom: vec![
            CustomTrigger { name: "first".into(), pattern: "git".into(), intensity: Intensity::Mini },
            CustomTrigger {
                name: "second".into(),
                pattern: "git push".into(),
                intensity: Intensity::Epic,
            },
        ],
    };
    let state = State::default();
    let event = make_bash_event_with_command("git push origin main", 0);
    let result = decide(&event, &state, &cfg);
    // First trigger matches "git" first
    assert_eq!(result, CelebrationLevel::Mini);
}

#[test]
fn test_custom_trigger_no_triggers_configured() {
    let cfg = Config::default(); // empty triggers
    let state = State::default();
    let event = make_bash_event_with_command("git push origin main", 0);
    let result = decide(&event, &state, &cfg);
    // No triggers, but "git push" detected -> breakthrough (Epic)
    assert_eq!(result, CelebrationLevel::Epic);
}

#[test]
fn test_check_custom_triggers_function_directly() {
    let cfg = config_with_triggers();
    assert_eq!(
        check_custom_triggers("git push origin main", &cfg),
        Some(CelebrationLevel::Epic)
    );
    assert_eq!(check_custom_triggers("cargo test", &cfg), Some(CelebrationLevel::Medium));
    assert_eq!(check_custom_triggers("echo hello", &cfg), None);
}

#[test]
fn test_custom_trigger_non_bash_tool_not_affected() {
    let cfg = config_with_triggers();
    let state = State::default();
    // Write tool should not trigger custom trigger matching -- routine level
    let event = make_event(EventKind::PostToolUse, Some("Write"));
    let result = decide(&event, &state, &cfg);
    assert_eq!(result, CelebrationLevel::Mini);
}

#[test]
fn test_detect_git_push() {
    assert_eq!(detect_git_command("git push origin main"), Some(EventKind::GitPush));
    assert_eq!(detect_git_command("git push"), Some(EventKind::GitPush));
}

#[test]
fn test_detect_git_commit() {
    assert_eq!(detect_git_command("git commit -m \"msg\""), Some(EventKind::GitCommit));
    assert_eq!(detect_git_command("git commit"), Some(EventKind::GitCommit));
}

#[test]
fn test_detect_git_commit_and_push_chain() {
    // "git add . && git commit -m x && git push" -- push wins
    let result = detect_git_command("git add . && git commit -m 'fix' && git push origin main");
    assert_eq!(result, Some(EventKind::GitPush));
}

#[test]
fn test_detect_no_git_command() {
    assert_eq!(detect_git_command("cargo test --release"), None);
    assert_eq!(detect_git_command("git status"), None);
    assert_eq!(detect_git_command("git diff"), None);
}

#[test]
fn test_bash_git_commit_is_milestone() {
    let cfg = Config::default();
    let state = State::default();
    let event = make_bash_event_with_command("git commit -m 'fix bug'", 0);
    let result = decide(&event, &state, &cfg);
    assert_eq!(result, CelebrationLevel::Medium); // milestone default
}

#[test]
fn test_bash_git_push_is_epic() {
    let cfg = Config::default();
    let state = State::default();
    let event = make_bash_event_with_command("git push origin master", 0);
    let result = decide(&event, &state, &cfg);
    assert_eq!(result, CelebrationLevel::Epic); // breakthrough default
}

#[test]
fn test_bash_routine_command_is_mini() {
    let cfg = Config::default();
    let state = State::default();
    let event = make_bash_event_with_command("ls -la", 0);
    let result = decide(&event, &state, &cfg);
    assert_eq!(result, CelebrationLevel::Mini);
}

#[test]
fn test_commit_then_push_chain_is_push_priority() {
    // The full chain classifies with push priority (breakthrough), not commit.
    let cfg = Config::default();
    let state = State::default();
    let event = make_bash_event_with_command("git add . && git commit -m x && git push origin main", 0);
    let result = decide(&event, &state, &cfg);
    assert_eq!(result, CelebrationLevel::Epic);
}

#[test]
fn test_has_git_commit_detects_segments() {
    assert!(has_git_commit("git commit -m 'x'"));
    assert!(has_git_commit("ls; git commit"));
    assert!(!has_git_commit("git committed"));
    assert!(!has_git_commit("echo git push"));
}

#[test]
fn test_xp_for_level_values() {
    assert_eq!(xp_for_level(&CelebrationLevel::Off), 0);
    assert_eq!(xp_for_level(&CelebrationLevel::Mini), 5);
    assert_eq!(xp_for_level(&CelebrationLevel::Medium), 25);
    assert_eq!(xp_for_level(&CelebrationLevel::Epic), 100);
}

#[test]
fn test_failed_tool_use_is_off() {
    let cfg = Config::default();
    let state = State::default();
    let event = make_event(EventKind::PostToolUseFailure, Some("Bash"));
    assert_eq!(decide(&event, &state, &cfg), CelebrationLevel::Off);
}
