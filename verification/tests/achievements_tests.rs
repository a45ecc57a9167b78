use cwinner::achievements::{check_achievements, registry};
use cwinner::event::{Event, EventKind, MetaValue};
use cwinner::state::State;

fn ev(kind: EventKind, tool: Option<&str>) -> Event {
    Event {
        event: kind,
        tool: tool.map(String::from),
        session_id: "s".into(),
        tty_path: "/dev/null".into(),
        metadata: Vec::new(),
    }
}

#[test]
fn test_registry_has_24_achievements() {
    assert_eq!(registry().len(), 26);
}

#[test]
fn test_first_commit_unlocks_on_first_commit() {
    let mut s = State::default();
    s.commits_total = 1;
    let unlocked = check_achievements(&s, &ev(EventKind::GitCommit, None));
    assert!(unlocked.iter().any(|a| a.id == "first_commit"));
}

#[test]
fn test_streak_5_unlocks_at_5_days() {
    let mut s = State::default();
    s.commit_streak_days = 5;
    let unlocked = check_achievements(&s, &ev(EventKind::GitCommit, None));
    assert!(unlocked.iter().any(|a| a.id == "streak_5"));
}

#[test]
fn test_no_duplicate_unlocks() {
    let mut s = State::default();
    s.commits_total = 1;
    s.achievements_unlocked = vec!["first_commit".into()];
    let unlocked = check_achievements(&s, &ev(EventKind::GitCommit, None));
    assert!(!unlocked.iter().any(|a| a.id == "first_commit"));
}

#[test]
fn test_first_subagent_unlocks_on_task_tool() {
    let mut s = State::default();
    s.tools_used.push("Task".into());
    let unlocked = check_achievements(&s, &ev(EventKind::PostToolUse, Some("Task")));
    assert!(unlocked.iter().any(|a| a.id == "first_subagent"));
}

#[test]
fn test_mcp_pioneer_unlocks_on_mcp_tool() {
    let mut s = State::default();
    s.tools_used.push("mcp__github__search".into());
    let unlocked = check_achievements(&s, &ev(EventKind::PostToolUse, Some("mcp__github__search")));
    assert!(unlocked.iter().any(|a| a.id == "mcp_pioneer"));
}

#[test]
fn test_level_2_unlocks_at_level_2() {
    let mut s = State::default();
    s.level = 2;
    let unlocked = check_achievements(&s, &ev(EventKind::TaskCompleted, None));
    assert!(unlocked.iter().any(|a| a.id == "level_2"));
}

#[test]
fn test_tool_explorer_at_5_tools() {
    let mut s = State::default();
    for t in ["Bash", "Read", "Write", "Glob", "Task"] {
        s.tools_used.push(t.into());
    }
    let unlocked = check_achievements(&s, &ev(EventKind::PostToolUse, Some("Task")));
    assert!(unlocked.iter().any(|a| a.id == "tool_explorer"));
}

#[test]
fn test_achievement_has_name_and_description() {
    let reg = registry();
    let a = reg.iter().find(|a| a.id == "first_commit").unwrap();
    assert!(!a.name.is_empty());
    assert!(!a.description.is_empty());
}

#[test]
fn test_commit_10_unlocks() {
    let mut s = State::default();
    s.commits_total = 10;
    let unlocked = check_achievements(&s, &ev(EventKind::GitCommit, None));
    assert!(unlocked.iter().any(|a| a.id == "commit_10"));
}

#[test]
fn test_commit_50_unlocks() {
    let mut s = State::default();
    s.commits_total = 50;
    let unlocked = check_achievements(&s, &ev(EventKind::GitCommit, None));
    assert!(unlocked.iter().any(|a| a.id == "commit_50"));
}

#[test]
fn test_commit_100_unlocks() {
    let mut s = State::default();
    s.commits_total = 100;
    let unlocked = check_achievements(&s, &ev(EventKind::GitCommit, None));
    assert!(unlocked.iter().any(|a| a.id == "commit_100"));
}

#[test]
fn test_streak_10_unlocks() {
    let mut s = State::default();
    s.commit_streak_days = 10;
    let unlocked = check_achievements(&s, &ev(EventKind::GitCommit, None));
    assert!(unlocked.iter().any(|a| a.id == "streak_10"));
}

#[test]
fn test_streak_25_unlocks() {
    let mut s = State::default();
    s.commit_streak_days = 25;
    let unlocked = check_achievements(&s, &ev(EventKind::GitCommit, None));
    assert!(unlocked.iter().any(|a| a.id == "streak_25"));
}

#[test]
fn test_first_push_unlocks_on_git_push() {
    let s = State::default();
    let unlocked = check_achievements(&s, &ev(EventKind::GitPush, None));
    assert!(unlocked.iter().any(|a| a.id == "first_push"));
}

#[test]
fn test_test_whisperer_unlocks_on_fail_to_pass() {
    let mut s = State::default();
    s.last_bash_exit = Some(1); // previous run failed
    // current event: Bash exited 0
    let mut event = ev(EventKind::PostToolUse, Some("Bash"));
    event.metadata.push(("exit_code".into(), MetaValue::Int(0)));
    let unlocked = check_achievements(&s, &event);
    assert!(unlocked.iter().any(|a| a.id == "test_whisperer"));
}

#[test]
fn test_test_whisperer_does_not_unlock_on_pass_to_pass() {
    let mut s = State::default();
    s.last_bash_exit = Some(0); // previous run also passed
    let mut event = ev(EventKind::PostToolUse, Some("Bash"));
    event.metadata.push(("exit_code".into(), MetaValue::Int(0)));
    let unlocked = check_achievements(&s, &event);
    assert!(!unlocked.iter().any(|a| a.id == "test_whisperer"));
}

#[test]
fn test_tool_master_at_10_tools() {
    let mut s = State::default();
    for t in ["Bash", "Read", "Write", "Glob", "Task", "Edit", "Grep", "WebSearch", "WebFetch",
        "TodoWrite"] {
        s.tools_used.push(t.into());
    }
    let unlocked = check_achievements(&s, &ev(EventKind::PostToolUse, Some("Bash")));
    assert!(unlocked.iter().any(|a| a.id == "tool_master"));
}

#[test]
fn test_level_3_unlocks() {
    let mut s = State::default();
    s.level = 3;
    let unlocked = check_achievements(&s, &ev(EventKind::TaskCompleted, None));
    assert!(unlocked.iter().any(|a| a.id == "level_3"));
}

#[test]
fn test_level_4_unlocks() {
    let mut s = State::default();
    s.level = 4;
    let unlocked = check_achievements(&s, &ev(EventKind::TaskCompleted, None));
    assert!(unlocked.iter().any(|a| a.id == "level_4"));
}

#[test]
fn test_level_5_unlocks() {
    let mut s = State::default();
    s.level = 5;
    let unlocked = check_achievements(&s, &ev(EventKind::TaskCompleted, None));
    assert!(unlocked.iter().any(|a| a.id == "level_5"));
}

#[test]
fn test_web_surfer_unlocks_on_websearch() {
    let mut s = State::default();
    s.tools_used.push("WebSearch".into());
    let unlocked = check_achievements(&s, &ev(EventKind::PostToolUse, Some("WebSearch")));
    assert!(unlocked.iter().any(|a| a.id == "web_surfer"));
}

#[test]
fn test_researcher_unlocks_on_webfetch() {
    let mut s = State::default();
    s.tools_used.push("WebFetch".into());
    let unlocked = check_achievements(&s, &ev(EventKind::PostToolUse, Some("WebFetch")));
    assert!(unlocked.iter().any(|a| a.id == "researcher"));
}

#[test]
fn test_notebook_scientist_unlocks() {
    let mut s = State::default();
    s.tools_used.push("NotebookEdit".into());
    let unlocked = check_achievements(&s, &ev(EventKind::PostToolUse, Some("NotebookEdit")));
    assert!(unlocked.iter().any(|a| a.id == "notebook_scientist"));
}

#[test]
fn test_todo_master_unlocks() {
    let mut s = State::default();
    s.tools_used.push("TodoWrite".into());
    let unlocked = check_achievements(&s, &ev(EventKind::PostToolUse, Some("TodoWrite")));
    assert!(unlocked.iter().any(|a| a.id == "todo_master"));
}

#[test]
fn test_first_skill_unlocks() {
    let mut s = State::default();
    s.tools_used.push("Skill".into());
    let unlocked = check_achievements(&s, &ev(EventKind::PostToolUse, Some("Skill")));
    assert!(unlocked.iter().any(|a| a.id == "first_skill"));
}

#[test]
fn test_first_team_unlocks() {
    let mut s = State::default();
    s.tools_used.push("TeamCreate".into());
    let unlocked = check_achievements(&s, &ev(EventKind::PostToolUse, Some("TeamCreate")));
    assert!(unlocked.iter().any(|a| a.id == "first_team"));
}

#[test]
fn test_team_communicator_unlocks() {
    let mut s = State::default();
    s.tools_used.push("SendMessage".into());
    let unlocked = check_achievements(&s, &ev(EventKind::PostToolUse, Some("SendMessage")));
    assert!(unlocked.iter().any(|a| a.id == "team_communicator"));
}

#[test]
fn test_checker_never_returns_already_unlocked() {
    // A state that satisfies many predicates but has several already unlocked.
    let mut s = State::default();
    s.commits_total = 100;
    s.commit_streak_days = 25;
    s.level = 10;
    s.achievements_unlocked =
        vec!["first_commit".into(), "commit_10".into(), "streak_5".into(), "level_2".into()];
    let unlocked = check_achievements(&s, &ev(EventKind::GitCommit, None));
    for a in &unlocked {
        assert!(
            !s.achievements_unlocked.iter().any(|id| id == a.id),
            "{} returned although already unlocked",
            a.id
        );
    }
    assert!(unlocked.iter().any(|a| a.id == "commit_50"));
    assert!(unlocked.iter().any(|a| a.id == "streak_10"));
}
