//! Selection of the sound category for a celebration. Locating and playing
//! the file is the audio collaborator's business, outside the core.

use vstd::prelude::*;
use crate::celebration::CelebrationLevel;

verus! {

/// The categories of synthesized celebration sounds.
#[derive(Debug, Clone, Copy)]
pub enum SoundKind {
    Mini,
    Milestone,
    Epic,
    Fanfare,
    Streak,
}

/// The file-name stem of a sound category.
pub open spec fn spec_sound_name(k: SoundKind) -> Seq<char> {
    match k {
        SoundKind::Mini => "mini"@,
        SoundKind::Milestone => "milestone"@,
        SoundKind::Epic => "epic"@,
        SoundKind::Fanfare => "fanfare"@,
        SoundKind::Streak => "streak"@,
    }
}

impl SoundKind {
    /// The file-name stem of this sound category.
    pub fn name(&self) -> (r: &'static str)
        ensures
            r@ == spec_sound_name(*self),
    {
        match self {
            SoundKind::Mini => "mini",
            SoundKind::Milestone => "milestone",
            SoundKind::Epic => "epic",
            SoundKind::Fanfare => "fanfare",
            SoundKind::Streak => "streak",
        }
    }
}

/// The sound category for a celebration: none when off; the epic chord for
/// a Medium celebration that carries an achievement; the streak scale for a
/// streak-milestone Epic, the fanfare for any other Epic.
pub open spec fn spec_celebration_to_sound(
    level: CelebrationLevel,
    has_achievement: bool,
    is_streak_milestone: bool,
) -> Option<SoundKind> {
    match level {
        CelebrationLevel::Off => None,
        CelebrationLevel::Mini => Some(SoundKind::Mini),
        CelebrationLevel::Medium => if has_achievement {
            Some(SoundKind::Epic)
        } else {
            Some(SoundKind::Milestone)
        },
        CelebrationLevel::Epic => if is_streak_milestone {
            Some(SoundKind::Streak)
        } else {
            Some(SoundKind::Fanfare)
        },
    }
}

/// Choose the sound category for a celebration.
pub fn celebration_to_sound(
    level: &CelebrationLevel,
    has_achievement: bool,
    is_streak_milestone: bool,
) -> (r: Option<SoundKind>)
    ensures
        r == spec_celebration_to_sound(*level, has_achievement, is_streak_milestone),
{
    match level {
        CelebrationLevel::Off => None,
        CelebrationLevel::Mini => Some(SoundKind::Mini),
        CelebrationLevel::Medium => {
            if has_achievement {
                Some(SoundKind::Epic)
            } else {
                Some(SoundKind::Milestone)
            }
        },
        CelebrationLevel::Epic => {
            if is_streak_milestone {
                Some(SoundKind::Streak)
            } else {
                Some(SoundKind::Fanfare)
            }
        },
    }
}

} // verus!
