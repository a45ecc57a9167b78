use cwinner::config::{Config, Intensity};

#[test]
fn test_default_config_has_no_custom_triggers() {
    let cfg = Config::default();
    assert!(cfg.triggers.custom.is_empty());
}

#[test]
fn test_default_intensity_slots() {
    let cfg = Config::default();
    assert_eq!(cfg.intensity.routine, Intensity::Mini);
    assert_eq!(cfg.intensity.task_completed, Intensity::Medium);
    assert_eq!(cfg.intensity.milestone, Intensity::Medium);
    assert_eq!(cfg.intensity.breakthrough, Intensity::Epic);
}

#[test]
fn test_default_audio_and_visual() {
    let cfg = Config::default();
    assert!(cfg.audio.enabled);
    assert_eq!(cfg.audio.sound_pack, "default");
    assert!(cfg.visual.confetti);
    assert!(cfg.visual.splash_screen);
    assert!(cfg.visual.progress_bar);
    assert_eq!(cfg.visual.confetti_duration_ms, 1500);
    assert_eq!(cfg.visual.splash_duration_ms, 2000);
}
