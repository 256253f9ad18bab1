use walllit::playback::Playback;

#[test]
fn fullscreen_preference_never_overrides_session_or_manual_pause() {
    for enabled in [false, true] {
        for covered in [false, true] {
            assert_eq!(Playback::decide(true, enabled, covered), Playback::Sleeping);
        }
    }
}

#[test]
fn covered_monitor_only_pauses_when_enabled() {
    assert_eq!(Playback::decide(false, false, true), Playback::Playing);
    assert_eq!(Playback::decide(false, true, true), Playback::Paused);
    assert_eq!(Playback::decide(false, true, false), Playback::Playing);
}

#[test]
fn every_state_has_a_label() {
    assert_eq!(Playback::Playing.label(), "playing");
    assert_eq!(Playback::Paused.label(), "paused (covered)");
    assert_eq!(Playback::Sleeping.label(), "sleeping");
}
