use vstd::prelude::*;

verus! {

/// What a monitor's wallpaper is doing at a given moment.
#[derive(Clone, Copy, Debug, PartialEq, Eq, Structural)]
pub enum Playback {
    Playing,
    Paused,
    Sleeping,
}

/// The pause policy: an inactive session wins over everything, and a covered
/// monitor only pauses when the user asked for it.
pub open spec fn decision(dormant: bool, pause_when_fullscreen: bool, covered: bool) -> Playback {
    if dormant {
        Playback::Sleeping
    } else if pause_when_fullscreen && covered {
        Playback::Paused
    } else {
        Playback::Playing
    }
}

impl Playback {
    pub fn decide(dormant: bool, pause_when_fullscreen: bool, covered: bool) -> (state: Self)
        ensures
            state == decision(dormant, pause_when_fullscreen, covered),
    {
        if dormant {
            Self::Sleeping
        } else if pause_when_fullscreen && covered {
            Self::Paused
        } else {
            Self::Playing
        }
    }

    pub fn label(self) -> (text: &'static str)
        ensures
            self == Playback::Playing ==> text@ == "playing"@,
            self == Playback::Paused ==> text@ == "paused (covered)"@,
            self == Playback::Sleeping ==> text@ == "sleeping"@,
    {
        match self {
            Self::Playing => "playing",
            Self::Paused => "paused (covered)",
            Self::Sleeping => "sleeping",
        }
    }
}

/// Sleeping happens exactly when the session is inactive; otherwise a
/// monitor pauses exactly when it is covered and the user asked to pause for
/// full-screen windows, and plays in every other case.
pub proof fn pause_needs_cover_and_consent(dormant: bool, pause_when_fullscreen: bool, covered: bool)
    ensures
        decision(dormant, pause_when_fullscreen, covered) == Playback::Sleeping <==> dormant,
        decision(dormant, pause_when_fullscreen, covered) == Playback::Paused <==> !dormant
            && pause_when_fullscreen && covered,
        decision(dormant, pause_when_fullscreen, covered) == Playback::Playing <==> !dormant && !(
        pause_when_fullscreen && covered),
        decision(false, pause_when_fullscreen, false) == Playback::Playing,
        decision(false, false, covered) == Playback::Playing,
{
}

} // verus!
