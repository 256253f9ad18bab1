use walllit::config::{
    default_layer_mode, default_mode, default_true, loops_valid, version_supported, without_bom, Mode,
    Schedule, ScheduleEntry, Transition, CURRENT_VERSION,
};

#[test]
fn schedule_wraps_midnight_and_rejects_out_of_day_time() {
    let schedule = Schedule { enabled: true, entries: Schedule::day_and_night() };
    assert_eq!(schedule.active_at(0), Some((1, 420)));
    assert_eq!(schedule.active_at(420), Some((0, 1140)));
    assert_eq!(schedule.active_at(1140), Some((1, 420)));
    let out_of_day = Schedule { enabled: false, entries: vec![ScheduleEntry { minute: 1440, slide: 0 }] };
    assert!(!out_of_day.within_day());
}

#[test]
fn disabled_or_empty_schedule_decides_nothing() {
    let off = Schedule { enabled: false, entries: Schedule::day_and_night() };
    assert_eq!(off.active_at(600), None);
    let empty = Schedule { enabled: true, entries: Vec::new() };
    assert_eq!(empty.active_at(600), None);
    assert!(Schedule::default().within_day());
}

#[test]
fn single_entry_is_always_in_force_and_restarts_a_day_later() {
    let schedule = Schedule { enabled: true, entries: vec![ScheduleEntry { minute: 600, slide: 3 }] };
    assert_eq!(schedule.active_at(0), Some((3, 600)));
    assert_eq!(schedule.active_at(600), Some((3, 600)));
    assert_eq!(schedule.active_at(1439), Some((3, 600)));
}

#[test]
fn unsorted_entries_pick_the_latest_start() {
    let schedule = Schedule {
        enabled: true,
        entries: vec![
            ScheduleEntry { minute: 1200, slide: 2 },
            ScheduleEntry { minute: 360, slide: 0 },
            ScheduleEntry { minute: 720, slide: 1 },
        ],
    };
    assert_eq!(schedule.active_at(300), Some((2, 360)));
    assert_eq!(schedule.active_at(500), Some((0, 720)));
    assert_eq!(schedule.active_at(800), Some((1, 1200)));
    assert_eq!(schedule.active_at(1300), Some((2, 360)));
    assert!(schedule.within_day());
}

#[test]
fn labels_are_two_digit_clock_times() {
    assert_eq!(ScheduleEntry { minute: 420, slide: 0 }.label(), "07:00");
    assert_eq!(ScheduleEntry { minute: 1439, slide: 0 }.label(), "23:59");
    assert_eq!(ScheduleEntry { minute: 5, slide: 0 }.label(), "00:05");
}

#[test]
fn bom_is_dropped_once() {
    assert_eq!(without_bom("\u{feff}{}"), "{}");
    assert_eq!(without_bom("{}"), "{}");
    assert_eq!(without_bom("\u{feff}\u{feff}x"), "\u{feff}x");
    assert_eq!(without_bom(""), "");
}

#[test]
fn defaults_and_versions() {
    assert_eq!(default_mode(), Mode::Fill);
    assert_eq!(default_layer_mode(), Mode::Fill);
    assert!(default_true());
    assert_eq!(Transition::default(), Transition::Cut);
    assert_eq!(Transition::ALL.len(), 8);
    assert!(version_supported(CURRENT_VERSION));
    assert!(!version_supported(2));
    assert!(loops_valid(1));
    assert!(!loops_valid(0));
}
