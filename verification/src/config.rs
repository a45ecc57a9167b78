//! Configuration consumed by the celebration classifier.
//!
//! The surrounding process reads the user's configuration document and hands
//! the core this plain value; absence or a parse failure falls back to the
//! built-in defaults below.

use vstd::prelude::*;

verus! {

/// A celebration intensity slot as written in the configuration document.
#[derive(Debug, Clone, Copy, PartialEq, Eq, Structural)]
pub enum Intensity {
    Off,
    Mini,
    Medium,
    Epic,
}

/// Per-event-category default intensities.
#[derive(Debug, Clone)]
pub struct IntensityConfig {
    pub routine: Intensity,
    pub task_completed: Intensity,
    pub milestone: Intensity,
    pub breakthrough: Intensity,
}

impl Default for IntensityConfig {
    fn default() -> (r: Self)
        ensures
            r.routine == Intensity::Mini,
            r.task_completed == Intensity::Medium,
            r.milestone == Intensity::Medium,
            r.breakthrough == Intensity::Epic,
    {
        IntensityConfig {
            routine: Intensity::Mini,
            task_completed: Intensity::Medium,
            milestone: Intensity::Medium,
            breakthrough: Intensity::Epic,
        }
    }
}

/// Audio settings the core reads; playback details stay with the audio
/// collaborator.
#[derive(Debug, Clone)]
pub struct AudioConfig {
    pub enabled: bool,
    pub sound_pack: String,
}

impl Default for AudioConfig {
    fn default() -> (r: Self)
        ensures
            r.enabled,
            r.sound_pack@ == "default"@,
    {
        AudioConfig { enabled: true, sound_pack: String::from_str("default") }
    }
}

/// Visual toggles and durations, passed through to the renderer.
#[derive(Debug, Clone)]
pub struct VisualConfig {
    pub confetti: bool,
    pub splash_screen: bool,
    pub progress_bar: bool,
    pub confetti_duration_ms: u64,
    pub splash_duration_ms: u64,
}

impl Default for VisualConfig {
    fn default() -> (r: Self)
        ensures
            r.confetti,
            r.splash_screen,
            r.progress_bar,
            r.confetti_duration_ms == 1500,
            r.splash_duration_ms == 2000,
    {
        VisualConfig {
            confetti: true,
            splash_screen: true,
            progress_bar: true,
            confetti_duration_ms: 1500,
            splash_duration_ms: 2000,
        }
    }
}

/// A user-configured celebration rule: a substring pattern and the intensity
/// it awards.
#[derive(Debug, Clone)]
pub struct CustomTrigger {
    pub name: String,
    pub pattern: String,
    pub intensity: Intensity,
}

/// The ordered list of custom triggers; order decides match precedence.
#[derive(Debug, Clone)]
pub struct TriggersConfig {
    pub custom: Vec<CustomTrigger>,
}

impl Default for TriggersConfig {
    fn default() -> (r: Self)
        ensures
            r.custom@.len() == 0,
    {
        TriggersConfig { custom: Vec::new() }
    }
}

/// The whole configuration value handed to the core.
#[derive(Debug, Clone)]
pub struct Config {
    pub intensity: IntensityConfig,
    pub audio: AudioConfig,
    pub visual: VisualConfig,
    pub triggers: TriggersConfig,
}

impl Default for Config {
    fn default() -> (r: Self)
        ensures
            r.intensity.routine == Intensity::Mini,
            r.intensity.task_completed == Intensity::Medium,
            r.intensity.milestone == Intensity::Medium,
            r.intensity.breakthrough == Intensity::Epic,
            r.audio.enabled,
            r.audio.sound_pack@ == "default"@,
            r.visual.confetti,
            r.visual.splash_screen,
            r.visual.progress_bar,
            r.visual.confetti_duration_ms == 1500,
            r.visual.splash_duration_ms == 2000,
            r.triggers.custom@.len() == 0,
    {
        Config {
            intensity: IntensityConfig::default(),
            audio: AudioConfig::default(),
            visual: VisualConfig::default(),
            triggers: TriggersConfig::default(),
        }
    }
}

} // verus!
