use walllit::icon::Cursor;
use walllit::poster::{poster_file_name, sanitize};

#[test]
fn path_commands_and_numbers_are_read_in_turn() {
    let path = "M1 2L3,4 5 6z";
    let mut cursor = Cursor::new(path);
    assert_eq!(cursor.command(), Some('M'));
    assert_eq!(cursor.number_span(), Some((1, 2)));
    assert_eq!(cursor.number_span(), Some((3, 4)));
    assert_eq!(cursor.command(), Some('L'));
    assert_eq!(&path[5..6], "3");
    assert_eq!(cursor.number_span(), Some((5, 6)));
    assert_eq!(cursor.number_span(), Some((7, 8)));
    assert_eq!(cursor.command(), Some('L'));
    assert_eq!(cursor.number_span(), Some((9, 10)));
    assert_eq!(cursor.number_span(), Some((11, 12)));
    assert_eq!(cursor.number_span(), None);
    assert_eq!(cursor.command(), Some('z'));
    assert_eq!(cursor.command(), None);
}

#[test]
fn moves_continue_as_lines_and_signs_start_numbers() {
    let path = "M-1.5 +2 3 4";
    let mut cursor = Cursor::new(path);
    assert_eq!(cursor.command(), Some('M'));
    assert_eq!(cursor.number_span(), Some((1, 5)));
    assert_eq!(&path[1..5], "-1.5");
    assert_eq!(cursor.number_span(), Some((6, 8)));
    assert_eq!(cursor.command(), Some('L'));
    assert_eq!(cursor.number_span(), Some((9, 10)));
    let mut bare = Cursor::new("7 8");
    assert_eq!(bare.command(), None);
    assert_eq!(bare.number_span(), Some((0, 1)));
}

#[test]
fn monitor_ids_become_safe_file_names() {
    assert_eq!(sanitize("DISPLAY-DEL4321-5&abc&0&UID1234"), "DISPLAY-DEL4321-5_abc_0_UID1234");
    assert_eq!(sanitize("a.b_c"), "a.b_c");
    assert_eq!(sanitize("tela ç"), "tela__");
    assert_eq!(poster_file_name("MON#1"), "MON_1.jpg");
}
