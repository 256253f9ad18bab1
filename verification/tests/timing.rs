use walllit::stats::Monitor;
use walllit::engine::{
    assign, engine_step, EngineAction, EngineEvent, EngineState,
    frame_action, frame_deadline, frame_step, is_held, needs_reattach, next_wakeup, resume_at, soonest, switch_delay,
    FrameAction,
};
use walllit::playback::Playback;
use walllit::rotation::{
    clamp_slide, earliest, loops_duration_100ns, minutes_until, next_in_order, next_slide, Pause,
    RELEASE_AFTER_100NS,
};
use walllit::config::{Schedule, ScheduleEntry};
use walllit::stats::{filetime_to_100ns, frequency, minute_of_day, saturating_mul, Instant};

#[test]
fn instants_convert_between_counter_ticks_and_hundreds_of_nanoseconds() {
    let f = 1_000_000;
    let start = Instant::after(10_000_000, 500, f);
    assert_eq!(start.until_100ns(500, f), 10_000_000);
    assert_eq!(start.until_100ns(1_000_500, f), 0);
    assert_eq!(start.until_100ns(2_000_500, f), -10_000_000);
    assert_eq!(start.until_100ns(1_000_499, f), 10);
    assert_eq!(Instant::now(42).until_100ns(42, f), 0);
    assert_eq!(frequency(0), 10_000_000);
    assert_eq!(frequency(3_000_000), 3_000_000);
}

#[test]
fn a_late_instant_restarts_one_interval_after_now() {
    let f = 10_000_000;
    let mut frame = Instant::now(0);
    frame.advance_100ns(100, 0, f);
    assert_eq!(frame.until_100ns(0, f), 100);
    let mut late = Instant::now(0);
    late.advance_100ns(100, 1_000, f);
    assert_eq!(late.until_100ns(1_000, f), 100);
    let mut close = Instant::now(0);
    close.advance_100ns(100, 350, f);
    assert_eq!(close.until_100ns(350, f), -250);
}

#[test]
fn saturating_and_packing_arithmetic() {
    assert_eq!(saturating_mul(i64::MAX, 2), i64::MAX);
    assert_eq!(saturating_mul(i64::MIN, 2), i64::MIN);
    assert_eq!(saturating_mul(-3, 4), -12);
    assert_eq!(filetime_to_100ns(1, 2), 0x1_0000_0002);
    assert_eq!(minute_of_day(23, 59), 1439);
    assert_eq!(minute_of_day(7, 0), 420);
}

#[test]
fn scheduled_waits_wrap_to_the_next_day() {
    assert_eq!(minutes_until(420, 360), 60 * 60 * 10_000_000);
    assert_eq!(minutes_until(420, 420), 1440 * 60 * 10_000_000);
    assert_eq!(minutes_until(0, 1439), 60 * 10_000_000);
}

#[test]
fn loops_hold_at_least_one_play_of_known_or_default_length() {
    assert_eq!(loops_duration_100ns(3, 50_000_000), 150_000_000);
    assert_eq!(loops_duration_100ns(0, 50_000_000), 50_000_000);
    assert_eq!(loops_duration_100ns(2, 0), 1_200_000_000);
    assert_eq!(loops_duration_100ns(u32::MAX, i64::MAX), i64::MAX);
}

#[test]
fn playlists_move_in_order_or_by_schedule() {
    assert_eq!(clamp_slide(5, 3), 2);
    assert_eq!(clamp_slide(1, 3), 1);
    assert_eq!(clamp_slide(4, 0), 0);
    assert_eq!(next_in_order(2, 3), 0);
    let off = Schedule::default();
    assert_eq!(next_slide(&off, 600, 0, 2), 1);
    let schedule = Schedule { enabled: true, entries: vec![ScheduleEntry { minute: 420, slide: 9 }] };
    assert_eq!(next_slide(&schedule, 600, 0, 3), 2);
    assert_eq!(earliest(Some(5), Some(3)), Some(3));
    assert_eq!(earliest(None, Some(3)), Some(3));
    assert_eq!(earliest(Some(5), None), Some(5));
    assert_eq!(earliest(None, None), None);
}

#[test]
fn pausing_keeps_the_time_left_and_resuming_restores_it() {
    let f = 10_000_000;
    let mut pause = Pause::new();
    pause.switch_at = Some(Instant::after(100_000_000, 0, f));
    assert!(pause.set_state(Playback::Paused, false, true, 40_000_000, f));
    assert_eq!(pause.paused_remaining, Some(60_000_000));
    assert_eq!(pause.release_at.map(|at| at.until_100ns(40_000_000, f)), Some(RELEASE_AFTER_100NS));
    assert!(!pause.set_state(Playback::Paused, false, true, 50_000_000, f));
    assert!(pause.set_state(Playback::Sleeping, false, true, 50_000_000, f));
    assert_eq!(pause.paused_remaining, Some(60_000_000));
    assert!(pause.set_state(Playback::Playing, false, true, 900_000_000, f));
    assert!(pause.release_at.is_none());
    assert_eq!(pause.switch_at.map(|at| at.until_100ns(900_000_000, f)), Some(60_000_000));
}

#[test]
fn engine_waits_for_the_nearest_deadline() {
    assert_eq!(soonest(&[Some(30), None, Some(-2), Some(7)]), Some(-2));
    assert_eq!(soonest(&[None, None]), None);
    assert_eq!(soonest(&[]), None);
    assert_eq!(frame_deadline(true, 5, &[1, 2]), None);
    assert_eq!(frame_deadline(false, 5, &[9, 2]), Some(2));
    assert_eq!(frame_deadline(false, 5, &[]), Some(5));
}

#[test]
fn frames_wait_coast_or_draw() {
    assert_eq!(frame_action(10, false, false), FrameAction::Wait);
    assert_eq!(frame_action(0, true, false), FrameAction::Coast);
    assert_eq!(frame_action(-5, true, true), FrameAction::Draw);
    assert_eq!(frame_action(0, false, false), FrameAction::Draw);
    assert_eq!(frame_step(true, false, 10, 333), 10);
    assert_eq!(frame_step(false, false, 10, 333), 333);
}

#[test]
fn power_settings_only_hold_playback_when_enabled() {
    assert!(!is_held(false, false, true, true, false, false));
    assert!(is_held(false, false, true, false, true, false));
    assert!(is_held(false, false, false, true, false, true));
    assert!(is_held(true, false, false, false, false, false));
    assert!(is_held(false, true, false, false, false, false));
}

#[test]
fn stopped_wallpapers_wake_only_to_release_and_retries_come_first() {
    assert_eq!(next_wakeup(false, Some(50), true, Some(1), Some(2), Some(3)), Some(50));
    assert_eq!(next_wakeup(false, None, false, None, Some(2), Some(3)), None);
    assert_eq!(next_wakeup(true, Some(50), true, Some(1), Some(2), Some(3)), Some(1));
    assert_eq!(next_wakeup(true, None, false, None, Some(9), Some(3)), Some(3));
    assert_eq!(next_wakeup(true, None, false, None, None, Some(3)), Some(3));
    assert_eq!(next_wakeup(true, None, false, None, None, None), None);
}

#[test]
fn frame_rate_is_reported_every_five_seconds() {
    let f = 1_000;
    let mut off = Monitor::new(false, 0);
    assert_eq!(off.tick(10_000, f), None);
    let mut monitor = Monitor::new(true, 0);
    assert_eq!(monitor.tick(1_000, f), None);
    assert_eq!(monitor.tick(4_999, f), None);
    assert_eq!(monitor.tick(5_000, f), Some((3, 5_000)));
    assert_eq!(monitor.tick(6_000, f), None);
    assert_eq!(monitor.tick(10_000, f), Some((2, 5_000)));
}

#[test]
fn playlists_arm_their_next_switch() {
    assert_eq!(switch_delay(1, Some(600), 0, 5), None);
    assert_eq!(switch_delay(2, Some(600), 540, 5), Some(60 * 60 * 10_000_000));
    assert_eq!(switch_delay(2, None, 540, 5), Some(5));
    let wallpapers = vec!["a.mp4".to_string(), "b.mp4".to_string(), "b.mp4".to_string()];
    assert_eq!(resume_at(Some("b.mp4"), &wallpapers), 1);
    assert_eq!(resume_at(Some("c.mp4"), &wallpapers), 0);
    assert_eq!(resume_at(None, &wallpapers), 0);
}

#[test]
fn surfaces_reattach_when_the_desktop_layer_changes() {
    let mut asked = false;
    assert!(needs_reattach(false, 2, 2, true, || { asked = true; Some(false) }));
    assert!(!asked);
    assert!(needs_reattach(true, 1, 2, true, || Some(false)));
    assert!(needs_reattach(true, 2, 2, false, || Some(false)));
    assert!(needs_reattach(true, 2, 2, true, || Some(true)));
    assert!(!needs_reattach(true, 2, 2, true, || Some(false)));
    assert!(!needs_reattach(true, 2, 2, true, || None));
}

fn ids(names: &[&str]) -> Vec<String> {
    names.iter().map(|n| n.to_string()).collect()
}

#[test]
fn monitors_with_items_are_assigned_in_monitor_order() {
    let monitors = ids(&["B", "A", "C", "D"]);
    let configured = vec![("A".to_string(), 2), ("B".to_string(), 1), ("C".to_string(), 0)];
    assert_eq!(assign(&monitors, &configured), vec![("B".to_string(), 1), ("A".to_string(), 2)]);
    let empty = vec![("A".to_string(), 0)];
    assert!(assign(&monitors, &empty).is_empty());
    assert!(assign(&[], &configured).is_empty());
}

#[test]
fn reload_keeps_everything_when_the_settings_are_rejected() {
    let f = 10_000_000;
    let mut state = EngineState::new(vec![("A".to_string(), 1)], 0);
    assert!(state.recovery.ready(0, f));
    assert_eq!(engine_step(&mut state, EngineEvent::RecoveryFailed, 0, f), vec![]);
    assert_eq!(state.recovery.deadline(0, f), Some(10_000_000));
    assert_eq!(engine_step(&mut state, EngineEvent::Reload(None), 5, f), vec![EngineAction::KeepSettings]);
    assert_eq!(state.assignments, vec![("A".to_string(), 1)]);
    assert_eq!(state.recovery.deadline(0, f), Some(10_000_000));
    assert_eq!(
        engine_step(&mut state, EngineEvent::Reload(Some(vec![])), 7, f),
        vec![EngineAction::AdoptSettings, EngineAction::InvalidateOcclusion]
    );
    assert!(state.assignments.is_empty());
    assert!(state.recovery.ready(7, f));
    assert_eq!(engine_step(&mut state, EngineEvent::RecoverySucceeded, 8, f), vec![EngineAction::InvalidateOcclusion]);
    assert!(!state.recovery.pending());
}

#[test]
fn lost_devices_drop_surfaces_and_back_off() {
    let f = 10_000_000;
    let mut state = EngineState::new(vec![], 0);
    assert_eq!(engine_step(&mut state, EngineEvent::DeviceLost, 100, f), vec![EngineAction::DropSurfaces]);
    assert_eq!(state.recovery.deadline(100, f), Some(10_000_000));
    assert_eq!(engine_step(&mut state, EngineEvent::DeviceLost, 100, f), vec![EngineAction::DropSurfaces]);
    assert_eq!(state.recovery.deadline(100, f), Some(20_000_000));
    assert_eq!(
        engine_step(&mut state, EngineEvent::DisplayChanged, 200, f),
        vec![EngineAction::ResolveAssignments, EngineAction::InvalidateOcclusion]
    );
    assert_eq!(state.recovery.deadline(100, f), Some(20_000_000));
    assert_eq!(engine_step(&mut state, EngineEvent::Resolved(vec![("X".to_string(), 3)]), 200, f), vec![]);
    assert_eq!(state.assignments, vec![("X".to_string(), 3)]);
    engine_step(&mut state, EngineEvent::RecoverySucceeded, 300, f);
    assert_eq!(engine_step(&mut state, EngineEvent::Reattach, 400, f), vec![]);
    assert!(state.recovery.ready(400, f));
}

#[test]
fn tray_commands_pause_advance_and_stop() {
    let mut state = EngineState::new(vec![], 0);
    assert_eq!(engine_step(&mut state, EngineEvent::TogglePause, 0, 1), vec![EngineAction::ShowPaused(true)]);
    assert!(state.user_paused);
    assert_eq!(engine_step(&mut state, EngineEvent::TogglePause, 0, 1), vec![EngineAction::ShowPaused(false)]);
    assert!(!state.user_paused);
    assert_eq!(engine_step(&mut state, EngineEvent::NextWallpaper, 0, 1), vec![EngineAction::AdvanceAll]);
    assert_eq!(engine_step(&mut state, EngineEvent::OpenSettings, 0, 1), vec![EngineAction::OpenSettings]);
    assert_eq!(engine_step(&mut state, EngineEvent::TrayQuit, 0, 1), vec![EngineAction::RequestShutdown, EngineAction::Stop]);
    assert_eq!(engine_step(&mut state, EngineEvent::Quit, 0, 1), vec![EngineAction::Stop]);
}
