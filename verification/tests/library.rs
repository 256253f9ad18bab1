use walllit::import::{is_adequate, plan, Step};
use walllit::apply::Applied;
use walllit::autostart::{command_line, needs_repair, stored_characters};
use walllit::diagnostics::publish;
use walllit::image::is_image_extension;
use walllit::import::{stored_file_name, ContentKey, FramePicker, Target, MAX_FPS};
use walllit::library::{contains_text, matching, remove_item, remove_selected, toggle_favorite, trim, Entry};
use walllit::maintenance::{confirmed, key, tally, Candidate, Found};

fn entry(name: &str, favorite: bool) -> Entry {
    Entry { name: name.to_string(), favorite }
}

#[test]
fn old_library_loads_without_favorites_and_search_preserves_indices() {
    let mut entries = vec![entry("Forest", false), entry("City", false)];
    assert_eq!(matching(&entries, " FOREST ", false), vec![0]);
    assert!(matching(&entries, "", true).is_empty());
    toggle_favorite(&mut entries, 1);
    assert_eq!(matching(&entries, "", true), vec![1]);
    let restored: Vec<Entry> = entries.iter().map(|e| entry(&e.name, e.favorite)).collect();
    assert_eq!(matching(&restored, "city", true), vec![1]);
}

#[test]
fn search_is_case_insensitive_beyond_ascii_and_ignores_outer_spaces() {
    let entries = vec![entry("ÁGUA Viva", false), entry("Ocean", true), entry("night city", true)];
    assert_eq!(matching(&entries, "água", false), vec![0]);
    assert_eq!(matching(&entries, "  CITY\t", false), vec![2]);
    assert_eq!(matching(&entries, "", false), vec![0, 1, 2]);
    assert_eq!(matching(&entries, "e", true), vec![1]);
    let mut entries = entries;
    toggle_favorite(&mut entries, 9);
    assert_eq!(matching(&entries, "", true), vec![1, 2]);
    assert!(contains_text("abcabd", "abd"));
    assert!(!contains_text("ab", "abc"));
    assert!(contains_text("", ""));
    assert_eq!(trim("  a b \n"), "a b");
    assert_eq!(trim(" \t "), "");
}

fn found(name: &str, bytes: u64, old: bool) -> Found {
    Found { path: format!(r"C:\Data\wallpapers\{name}"), key: key(&format!(r"C:\Data\wallpapers\{name}")), bytes, old }
}

#[test]
fn protects_disconnected_monitors_library_and_recent_files() {
    let referenced = vec![key(r"C:\Data\wallpapers\used.mp4"), key(r"C:\Data\wallpapers\INDEXED.mp4"), key("none.jpg")];
    let files = vec![found("used.mp4", 7, true), found("orphan.mp4", 7, true), found("indexed.mp4", 7, true)];
    let usage = tally(&files, &referenced);
    assert_eq!(usage.bytes, 21);
    assert_eq!(usage.candidates.len(), 1);
    assert_eq!(usage.candidates[0].path, r"C:\Data\wallpapers\orphan.mp4");
    let recent = vec![found("used.mp4", 7, false), found("orphan.mp4", 7, false), found("indexed.mp4", 7, false)];
    assert!(tally(&recent, &referenced).candidates.is_empty());
}

#[test]
fn usage_saturates_and_cleaning_needs_a_matching_fresh_scan() {
    let files = vec![found("a.mp4", u64::MAX, true), found("b.mp4", 5, true)];
    let usage = tally(&files, &Vec::new());
    assert_eq!(usage.bytes, u64::MAX);
    assert_eq!(usage.candidates.len(), 2);
    let reviewed = vec![
        Candidate { path: "x".to_string(), bytes: 1 },
        Candidate { path: "y".to_string(), bytes: 2 },
        Candidate { path: "z".to_string(), bytes: 3 },
    ];
    let current = vec![Candidate { path: "z".to_string(), bytes: 3 }, Candidate { path: "y".to_string(), bytes: 5 }, Candidate { path: "x".to_string(), bytes: 1 }];
    assert_eq!(confirmed(&reviewed, &current), vec![0, 2]);
    assert!(confirmed(&reviewed, &[]).is_empty());
    assert_eq!(key(r"C:\Users\Ana\WallLit"), r"c:\users\ana\walllit");
}

#[test]
fn stored_names_keep_readable_stem_key_and_extension() {
    let key = 0x1234_5678_9abc_def0;
    assert_eq!(stored_file_name(Some("My Clip!"), Some("mp4"), true, false, key), "My Clip-9abcdef0.mp4");
    assert_eq!(stored_file_name(None, None, true, false, 0x0f), "wallpaper-0000000f.mp4");
    assert_eq!(stored_file_name(Some("  !!  "), Some("jpg"), false, true, 0), "wallpaper-00000000.png");
    assert_eq!(stored_file_name(Some("clip"), Some("mov"), false, false, 1), "clip-00000001.mp4");
    let long = "a".repeat(60);
    assert_eq!(stored_file_name(Some(&long), Some("mp4"), true, false, 1), format!("{}-00000001.mp4", "a".repeat(48)));
}

#[test]
fn content_keys_follow_fnv_1a() {
    let target = Target::for_monitor(1921, 1081);
    assert_eq!((target.width, target.height, target.fps), (1920, 1080, MAX_FPS));
    let mut key = ContentKey::new(&target, true);
    assert_eq!(key.finish(), 0xcbf2_9ce4_8422_2325);
    key.mix(b"a");
    assert_eq!(key.finish(), 0xaf63_dc4c_8601_ec8c);
    let mut split = ContentKey::new(&target, false);
    split.mix(b"ab");
    let mut joined = ContentKey::new(&target, false);
    joined.mix(b"a");
    joined.mix(b"b");
    assert_eq!(split.finish(), joined.finish());
    assert_ne!(ContentKey::new(&target, false).finish(), ContentKey::new(&target, true).finish());
}

#[test]
fn image_extensions_ignore_case() {
    assert!(is_image_extension("JPG"));
    assert!(is_image_extension("webp"));
    assert!(is_image_extension("HeIc"));
    assert!(!is_image_extension("mp4"));
    assert!(!is_image_extension(""));
}

#[test]
fn autostart_command_is_quoted_and_repaired_when_stale() {
    assert_eq!(command_line(r"C:\Program Files\WallLit\walllit.exe"), r#""C:\Program Files\WallLit\walllit.exe""#);
    assert!(needs_repair(Some(r#""C:\old\walllit.exe""#), r#""C:\new\walllit.exe""#));
    assert!(!needs_repair(Some("same"), "same"));
    assert!(!needs_repair(None, "anything"));
    assert_eq!(stored_characters(20), 9);
    assert_eq!(stored_characters(1), 0);
}

#[test]
fn unchanged_state_is_not_published_twice() {
    let mut previous = String::new();
    let mut writes = 0;
    publish("running", &mut previous, |_| { writes += 1; true });
    assert_eq!(previous, "running");
    publish("running", &mut previous, |_| { writes += 1; true });
    assert_eq!(writes, 1);
    publish("stopped", &mut previous, |_| false);
    assert_eq!(previous, "running");
    let applied = Applied { warnings: vec!["library: x".to_string()] };
    assert_eq!(applied.warnings.len(), 1);
}

#[test]
fn removing_selected_items_keeps_the_rest_in_order() {
    let mut items = vec!["a", "b", "c", "d", "e"];
    remove_selected(&mut items, &[3, 0, 3, 9]);
    assert_eq!(items, vec!["b", "c", "e"]);
    remove_selected(&mut items, &[]);
    assert_eq!(items, vec!["b", "c", "e"]);
    remove_item(&mut items, 1);
    assert_eq!(items, vec!["b", "e"]);
    remove_item(&mut items, 5);
    assert_eq!(items, vec!["b", "e"]);
}

#[test]
fn imports_reuse_copy_scale_or_convert() {
    let target = Target::for_monitor(1920, 1080);
    assert!(is_adequate(1920, 1080, true, false, false, &target));
    assert!(!is_adequate(4000, 3000, true, false, true, &target));
    assert!(is_adequate(1280, 720, false, true, true, &target));
    assert!(!is_adequate(1280, 720, false, false, true, &target));
    assert!(!is_adequate(1280, 720, false, true, false, &target));
    assert_eq!(plan(true, true, false, false), Step::Reuse);
    assert_eq!(plan(false, false, false, false), Step::Copy);
    assert_eq!(plan(false, true, true, true), Step::Copy);
    assert_eq!(plan(false, true, false, true), Step::ScaleImage);
    assert_eq!(plan(false, true, false, false), Step::Transcode);
}

#[test]
fn conversion_keeps_frames_at_the_target_rate() {
    let mut picker = FramePicker::new(30);
    assert!(!picker.any_written());
    assert_eq!(picker.offer(0), Some((0, 333_333)));
    assert_eq!(picker.offer(166_666), None);
    assert_eq!(picker.offer(333_332), Some((333_333, 333_333)));
    assert_eq!(picker.offer(500_000), None);
    assert_eq!(picker.offer(700_000), Some((666_666, 333_333)));
    assert!(picker.any_written());
}
