use cwinner::audio::{celebration_to_sound, SoundKind};
use cwinner::celebration::CelebrationLevel;
use cwinner::clock::current_day_number;
use cwinner::wav::encode_wav;

#[test]
fn test_sound_file_name() {
    assert_eq!(SoundKind::Mini.name(), "mini");
    assert_eq!(SoundKind::Milestone.name(), "milestone");
    assert_eq!(SoundKind::Epic.name(), "epic");
    assert_eq!(SoundKind::Fanfare.name(), "fanfare");
    assert_eq!(SoundKind::Streak.name(), "streak");
}

#[test]
fn test_streak_milestone_uses_streak_sound() {
    // When a streak milestone is hit, celebration_to_sound should return Streak
    let sound = celebration_to_sound(&CelebrationLevel::Epic, false, true);
    assert!(matches!(sound, Some(SoundKind::Streak)));
}

#[test]
fn test_non_streak_epic_still_uses_fanfare() {
    let sound = celebration_to_sound(&CelebrationLevel::Epic, false, false);
    assert!(matches!(sound, Some(SoundKind::Fanfare)));
}

#[test]
fn test_achievement_medium_still_uses_epic_sound() {
    let sound = celebration_to_sound(&CelebrationLevel::Medium, true, false);
    assert!(matches!(sound, Some(SoundKind::Epic)));
}

#[test]
fn test_off_has_no_sound() {
    let sound = celebration_to_sound(&CelebrationLevel::Off, true, true);
    assert!(sound.is_none());
}

#[test]
fn test_encode_wav_header() {
    let samples: Vec<i16> = vec![0, 1000, -1000, i16::MAX, i16::MIN];
    let wav = encode_wav(&samples, 48000);
    assert_eq!(&wav[0..4], b"RIFF");
    assert_eq!(&wav[8..12], b"WAVE");
    assert_eq!(&wav[12..16], b"fmt ");
    assert_eq!(&wav[36..40], b"data");
    assert_eq!(wav.len(), 44 + 4 * samples.len());
    // data size field: 4 bytes per sample, little endian
    let ds = u32::from_le_bytes([wav[40], wav[41], wav[42], wav[43]]);
    assert_eq!(ds as usize, 4 * samples.len());
}

#[test]
fn test_encode_wav_duplicates_channels() {
    let samples: Vec<i16> = vec![-2];
    let wav = encode_wav(&samples, 48000);
    // -2 as little-endian two's complement is fe ff, written twice
    assert_eq!(&wav[44..48], &[0xfe, 0xff, 0xfe, 0xff]);
}

#[test]
fn test_encode_wav_length_tracks_duration() {
    // Longer sample buffers give strictly longer files.
    let short: Vec<i16> = vec![0; 9600];
    let long: Vec<i16> = vec![0; 76800];
    assert!(encode_wav(&short, 48000).len() < encode_wav(&long, 48000).len());
}

#[test]
fn test_current_day_number_in_range() {
    let d = current_day_number();
    assert!(d >= i32::MIN as i64 && d <= i32::MAX as i64);
    // any plausible run of this test happens well after the common era began
    assert!(d > 0);
}
