use walllit::occlusion::{hides_wallpaper, is_see_through};
use walllit::canvas::Handle;
use walllit::display::{choose_durable_id, normalize_device_path};
use walllit::engine::{coverage_by_monitor, is_covered, pair_surfaces, Surface, Wanted};
use walllit::playback::Playback;
use walllit::occlusion::{contains, is_shell_class, Rect, Scan};
use walllit::session::{PowerStatus, SessionEvent, SessionState};

fn rect(left: i32, top: i32, right: i32, bottom: i32) -> Rect {
    Rect { left, top, right, bottom }
}

#[test]
fn front_most_window_covering_a_monitor_is_recorded() {
    let areas = [rect(0, 0, 1920, 1080), rect(1920, 0, 3840, 1080)];
    let mut scan = Scan::new(areas.len());
    assert!(!scan.finished());

    let small = rect(100, 100, 800, 600);
    let hits = scan.hits(&areas, &small);
    assert!(hits.is_empty());

    let full = rect(0, 0, 1920, 1080);
    let hits = scan.hits(&areas, &full);
    assert_eq!(hits, vec![0]);
    scan.cover(&hits, 7);

    let behind = rect(-10, -10, 4000, 2000);
    let hits = scan.hits(&areas, &behind);
    assert_eq!(hits, vec![1]);
    scan.cover(&hits, 9);

    assert!(scan.finished());
    assert_eq!(scan.covered(), vec![true, true]);
    assert_eq!(scan.windows(), vec![Some(7), Some(9)]);
}

#[test]
fn missing_surface_does_not_shift_other_monitors_coverage() {
    let ids = vec!["first".to_string(), "second".to_string()];
    let covered = coverage_by_monitor(&ids, &[true, false]);
    assert_eq!(Playback::decide(false, true, is_covered(&covered, "second")), Playback::Playing);
    assert_eq!(Playback::decide(false, true, is_covered(&covered, "first")), Playback::Paused);
}

#[test]
fn coverage_is_looked_up_by_monitor_identity() {
    let areas = [rect(0, 0, 100, 100), rect(100, 0, 200, 100)];
    let mut scan = Scan::new(areas.len());
    let hits = scan.hits(&areas, &rect(0, 0, 100, 100));
    scan.cover(&hits, 1);
    let ids = vec!["left".to_string(), "right".to_string(), "unscanned".to_string()];
    let coverage = coverage_by_monitor(&ids, &scan.covered());
    assert_eq!(coverage.len(), 2);
    assert!(is_covered(&coverage, "left"));
    assert!(!is_covered(&coverage, "right"));
    assert!(!is_covered(&coverage, "unscanned"));
    let repeated = coverage_by_monitor(&["same".to_string(), "same".to_string()], &[true, false]);
    assert!(!is_covered(&repeated, "same"));
}

#[test]
fn shell_windows_never_cover_and_containment_is_inclusive() {
    assert!(is_shell_class("Progman"));
    assert!(is_shell_class("WorkerW"));
    assert!(is_shell_class("WallLitSurface"));
    assert!(!is_shell_class("Notepad"));
    assert!(!is_shell_class("progman"));
    assert!(contains(&rect(0, 0, 10, 10), &rect(0, 0, 10, 10)));
    assert!(!contains(&rect(0, 0, 10, 10), &rect(0, 0, 11, 10)));
}

#[test]
fn device_paths_become_durable_monitor_ids() {
    assert_eq!(
        normalize_device_path(r"\\?\DISPLAY#DEL4321#5&abc&0&UID1234#{e6f07b5f-ee97-4a90-b076-33f57bf4eaa7}"),
        Some("DISPLAY-DEL4321-5&abc&0&UID1234".to_string())
    );
    assert_eq!(normalize_device_path(r"DISPLAY#DEL4321#x"), None);
    assert_eq!(normalize_device_path(r"\\?\DISPLAY"), None);
    assert_eq!(normalize_device_path(r"\\?\#tail"), None);
    assert_eq!(
        choose_durable_id(Some(r"\\?\MON#A#B"), r"\\.\DISPLAY1", 0),
        "MON-A"
    );
    assert_eq!(choose_durable_id(Some("raw-id"), r"\\.\DISPLAY1", 0), "raw-id");
    assert_eq!(choose_durable_id(None, r"\\.\DISPLAY2", 0), "DISPLAY2");
    assert_eq!(choose_durable_id(Some(""), "", 3), "DISPLAY3");
}

#[test]
fn session_events_update_the_state_and_changes_are_taken_once() {
    let mut state = SessionState::default();
    state.on_event(SessionEvent::Locked);
    assert!(state.is_dormant());
    state.on_event(SessionEvent::Unlocked);
    assert!(!state.is_dormant());
    assert_eq!(state.take_changes(), (false, true));
    assert_eq!(state.take_changes(), (false, false));
    state.on_event(SessionEvent::Suspending);
    assert!(state.is_dormant());
    state.on_event(SessionEvent::Resumed(Some(PowerStatus { ac_line_status: 0, system_status_flag: 1 })));
    assert!(!state.is_dormant());
    assert!(state.on_battery);
    assert!(state.energy_saver);
    assert_eq!(state.take_changes(), (true, true));
    state.on_event(SessionEvent::PowerChanged(None));
    assert!(state.on_battery);
    state.update_power(PowerStatus { ac_line_status: 1, system_status_flag: 0 });
    assert!(!state.on_battery && !state.energy_saver);
    state.on_event(SessionEvent::DisplayPower { off: true });
    assert!(state.is_dormant());
    assert_eq!(state.take_changes(), (false, false));
    state.on_event(SessionEvent::DisplayPower { off: false });
    assert_eq!(state.take_changes(), (false, true));
    state.on_event(SessionEvent::DisplayChanged);
    assert_eq!(state.take_changes(), (true, false));
}

#[test]
fn resize_handles_move_their_edges() {
    assert!(Handle::TopLeft.moves_left() && Handle::TopLeft.moves_top());
    assert!(!Handle::TopLeft.moves_right() && !Handle::TopLeft.moves_bottom());
    assert!(Handle::BottomRight.moves_right() && Handle::BottomRight.moves_bottom());
    assert!(!Handle::Move.moves_left() && !Handle::Move.moves_bottom());
}

#[test]
fn surfaces_are_kept_for_unchanged_monitors_only() {
    let surfaces = [
        Surface { monitor: "A".to_string(), rect: rect(0, 0, 10, 10), alive: true },
        Surface { monitor: "B".to_string(), rect: rect(10, 0, 20, 10), alive: false },
        Surface { monitor: "A".to_string(), rect: rect(0, 0, 10, 10), alive: true },
    ];
    let wanted = [
        Wanted { monitor: "B".to_string(), rect: rect(10, 0, 20, 10) },
        Wanted { monitor: "A".to_string(), rect: rect(0, 0, 10, 10) },
        Wanted { monitor: "A".to_string(), rect: rect(0, 0, 10, 10) },
        Wanted { monitor: "A".to_string(), rect: rect(0, 0, 10, 10) },
    ];
    assert_eq!(pair_surfaces(&surfaces, &wanted, false), vec![None, Some(0), Some(2), None]);
    assert_eq!(pair_surfaces(&surfaces, &wanted, true), vec![None, None, None, None]);
    let moved = [Wanted { monitor: "A".to_string(), rect: rect(0, 0, 20, 10) }];
    assert_eq!(pair_surfaces(&surfaces, &moved, false), vec![None]);
}

#[test]
fn overlays_and_hidden_windows_do_not_hide_the_wallpaper() {
    assert!(is_see_through(0x0008_0000));
    assert!(is_see_through(0x0000_0020));
    assert!(!is_see_through(0x0000_0100));
    assert!(hides_wallpaper(true, false, false, false, false));
    assert!(!hides_wallpaper(false, false, false, false, false));
    assert!(!hides_wallpaper(true, true, false, false, false));
    assert!(!hides_wallpaper(true, false, true, false, false));
    assert!(!hides_wallpaper(true, false, false, true, false));
    assert!(!hides_wallpaper(true, false, false, false, true));
}
