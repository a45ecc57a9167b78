use cwinner::state::State;
use cwinner::statejson::{stats_response, status_response};

#[test]
fn test_json_round_trip_default_state() {
    let s = State::default();
    let doc = s.to_json();
    let loaded = State::from_json(&doc).expect("default state document parses");
    assert_eq!(loaded.xp, s.xp);
    assert_eq!(loaded.level, s.level);
    assert_eq!(loaded.level_name, s.level_name);
    assert_eq!(loaded.commits_total, s.commits_total);
    assert_eq!(loaded.commit_streak_days, s.commit_streak_days);
    assert_eq!(loaded.last_commit_date, s.last_commit_date);
    assert_eq!(loaded.sessions_total, s.sessions_total);
    assert_eq!(loaded.achievements_unlocked, s.achievements_unlocked);
    assert_eq!(loaded.tools_used, s.tools_used);
    assert_eq!(loaded.last_event_at, s.last_event_at);
    assert_eq!(loaded.last_bash_exit, s.last_bash_exit);
}

#[test]
fn test_json_round_trip_populated_state() {
    let mut s = State::default();
    s.add_xp(250);
    s.record_commit(738000);
    s.record_tool_use("Bash");
    s.record_tool_use("Task");
    s.unlock_achievement("first_commit");
    s.unlock_achievement("level_2");
    s.sessions_total = 7;
    s.last_event_at = Some(1700000000);
    s.last_bash_exit = Some(-1);
    let doc = s.to_json();
    let loaded = State::from_json(&doc).expect("populated state document parses");
    assert_eq!(loaded.xp, s.xp);
    assert_eq!(loaded.level, s.level);
    assert_eq!(loaded.level_name, s.level_name);
    assert_eq!(loaded.commits_total, s.commits_total);
    assert_eq!(loaded.commit_streak_days, s.commit_streak_days);
    assert_eq!(loaded.last_commit_date, s.last_commit_date);
    assert_eq!(loaded.sessions_total, s.sessions_total);
    assert_eq!(loaded.achievements_unlocked, s.achievements_unlocked);
    assert_eq!(loaded.tools_used, s.tools_used);
    assert_eq!(loaded.last_event_at, s.last_event_at);
    assert_eq!(loaded.last_bash_exit, s.last_bash_exit);
}

#[test]
fn test_json_round_trip_with_special_characters() {
    let mut s = State::default();
    s.record_tool_use("weird \"quoted\" tool");
    s.record_tool_use("back\\slash");
    s.unlock_achievement("id with spaces");
    let doc = s.to_json();
    let loaded = State::from_json(&doc).expect("escaped document parses");
    assert_eq!(loaded.tools_used, s.tools_used);
    assert_eq!(loaded.achievements_unlocked, s.achievements_unlocked);
}

#[test]
fn test_json_exact_default_document() {
    let s = State::default();
    let doc = s.to_json();
    assert_eq!(
        doc,
        "{\"xp\":0,\"level\":1,\"level_name\":\"Vibe Initiate\",\"commits_total\":0,\
         \"commit_streak_days\":0,\"last_commit_date\":null,\"sessions_total\":0,\
         \"achievements_unlocked\":[],\"tools_used\":[],\"last_event_at\":null,\
         \"last_bash_exit\":null}"
    );
}

#[test]
fn test_from_json_rejects_malformed_documents() {
    assert!(State::from_json("").is_none());
    assert!(State::from_json("{}").is_none());
    assert!(State::from_json("{\"xp\":oops}").is_none());
    let s = State::default();
    let doc = s.to_json();
    let truncated = &doc[..doc.len() - 1];
    assert!(State::from_json(truncated).is_none());
    let mut trailing = doc.clone();
    trailing.push(' ');
    assert!(State::from_json(&trailing).is_none());
}

#[test]
fn test_from_json_is_canonical_only() {
    // The loader reads back exactly what the saver writes; a reformatted
    // document (extra whitespace) is treated as absent.
    let doc = State::default().to_json();
    let spaced = doc.replace("\"xp\":0", "\"xp\": 0");
    assert!(State::from_json(&spaced).is_none());
}

#[test]
fn test_from_json_rejects_out_of_range_numbers() {
    let doc = State::default().to_json();
    let bad = doc.replace("\"xp\":0", "\"xp\":4294967296");
    assert!(State::from_json(&bad).is_none());
    let good = doc.replace("\"xp\":0", "\"xp\":4294967295");
    let loaded = State::from_json(&good).expect("max xp fits");
    assert_eq!(loaded.xp, u32::MAX);
}

#[test]
fn test_from_json_accepts_negative_dates() {
    let doc = State::default().to_json();
    let dated = doc.replace("\"last_commit_date\":null", "\"last_commit_date\":-12");
    let loaded = State::from_json(&dated).expect("negative day number parses");
    assert_eq!(loaded.last_commit_date, Some(-12));
}

#[test]
fn test_status_response_document() {
    let mut s = State::default();
    s.add_xp(250);
    let doc = status_response(&s);
    assert_eq!(
        doc,
        "{\"ok\":true,\"data\":{\"xp\":250,\"level_name\":\"Prompt Whisperer\",\"running\":true}}"
    );
}

#[test]
fn test_stats_response_wraps_state_document() {
    let s = State::default();
    let doc = stats_response(&s);
    let inner = s.to_json();
    assert_eq!(doc, format!("{{\"ok\":true,\"data\":{}}}", inner));
}
