use cwinner::render::{level_threshold, xp_bar_string, xp_progress, RenderGate};
use cwinner::RENDER_COOLDOWN_MS;

#[test]
fn test_xp_bar_empty() {
    let bar = xp_bar_string(0, 100, 20);
    assert_eq!(bar.chars().count(), 20);
    assert!(bar.chars().all(|c| c == '\u{2591}'));
}

#[test]
fn test_xp_bar_half() {
    let bar = xp_bar_string(50, 100, 20);
    let filled = bar.chars().filter(|&c| c == '\u{2588}').count();
    assert_eq!(filled, 10);
}

#[test]
fn test_xp_bar_full() {
    let bar = xp_bar_string(100, 100, 20);
    assert!(bar.chars().all(|c| c == '\u{2588}'));
}

#[test]
fn test_level_thresholds() {
    assert_eq!(level_threshold(1), 100);
    assert_eq!(level_threshold(2), 500);
    assert_eq!(level_threshold(3), 1500);
}

#[test]
fn test_xp_progress_levels() {
    // Level 1, 50 XP: in_level = 50, needed = 100
    let (in_l, needed) = xp_progress(1, 50);
    assert_eq!(in_l, 50);
    assert_eq!(needed, 100);

    // Level 2, 250 XP: in_level = 150, needed = 400
    let (in_l, needed) = xp_progress(2, 250);
    assert_eq!(in_l, 150);
    assert_eq!(needed, 400);

    // Level 3, 500 XP (exactly at threshold): in_level = 0, needed = 1000
    let (in_l, needed) = xp_progress(3, 500);
    assert_eq!(in_l, 0);
    assert_eq!(needed, 1000);

    // Level 5, 6000 XP: in_level = 1000, needed = 5000
    let (in_l, needed) = xp_progress(5, 6000);
    assert_eq!(in_l, 1000);
    assert_eq!(needed, 5000);

    // Level 7, 25000 XP: in_level = 5000, needed = 15000
    let (in_l, needed) = xp_progress(7, 25000);
    assert_eq!(in_l, 5000);
    assert_eq!(needed, 15000);

    // Level 10 (max), 80000 XP: threshold = 75000, next = u32::MAX
    let (in_l, needed) = xp_progress(10, 80000);
    assert_eq!(in_l, 5000);
    assert_eq!(needed, u32::MAX - 75000);
}

#[test]
fn test_xp_progress_fresh_state() {
    let (in_l, needed) = xp_progress(1, 0);
    assert_eq!(in_l, 0);
    assert_eq!(needed, 100);
}

#[test]
fn test_xp_progress_matches_toast() {
    // For several (level, xp) combos, ensure xp_progress gives a single
    // answer that both call sites use.
    let cases = vec![
        (1, 0),
        (1, 50),
        (1, 99),
        (2, 100),
        (2, 250),
        (2, 499),
        (3, 500),
        (3, 1000),
        (3, 1499),
        (4, 1500),
        (4, 3000),
        (4, 4999),
        (5, 5000),
        (5, 9999),
        (6, 10000),
        (6, 15000),
        (7, 20000),
        (7, 30000),
        (8, 35000),
        (8, 45000),
        (9, 50000),
        (9, 60000),
        (10, 75000),
        (10, 100000),
    ];
    for (level, xp) in cases {
        let (in_l, needed) = xp_progress(level, xp);
        // Basic sanity: in_level should be <= needed (unless max level with huge XP)
        assert!(
            in_l <= needed || level as usize >= 10,
            "level={}, xp={}: in_level {} > needed {}",
            level,
            xp,
            in_l,
            needed
        );
        // xp_in_level + prev_threshold == xp
        let prev = level_threshold((level.saturating_sub(1)) as usize);
        assert_eq!(
            in_l + prev,
            xp,
            "level={}, xp={}: in_level {} + prev {} != xp",
            level,
            xp,
            in_l,
            prev
        );
    }
}

#[test]
fn test_render_guard_allows_first_render() {
    let mut guard = RenderGate::new();
    assert!(guard.acquire_render_slot(0));
}

#[test]
fn test_render_guard_cooldown() {
    let mut guard = RenderGate::new();
    assert!(guard.acquire_render_slot(1000));
    guard.finish_render(1000);
    // within the cooldown window: skipped
    assert!(!guard.acquire_render_slot(1000 + RENDER_COOLDOWN_MS - 1));
    // at the window boundary: allowed again
    assert!(guard.acquire_render_slot(1000 + RENDER_COOLDOWN_MS));
}
