use verco::tui_util::{move_cursor, AvailableSize, Header};
use verco::ui::Drawer;

#[test]
fn drawer_buffer_holds_only_what_was_written() {
    let mut drawer = Drawer::new(vec![1, 2, 3], (10, 5));
    drawer.str("ab");
    drawer.str("é");
    drawer.str("");
    assert_eq!(drawer.take_buf(), "abé".as_bytes().to_vec());
}

#[test]
fn short_header_keeps_the_last_bytes_of_a_long_directory() {
    let long = Header { action_name: "log", directory_name: "/a/very/long/path/to/some/repository/dir" };
    assert_eq!(long.full_length(), 8 + 40 + 3 + 3);
    assert_eq!(long.min_length(), 8 + 32 + 3 + 3);
    let short = Header { action_name: "log", directory_name: "/repo" };
    assert_eq!(short.min_length(), short.full_length());
}

#[test]
fn no_entries_puts_cursor_and_scroll_at_the_top() {
    let mut scroll: usize = 7;
    let mut cursor: usize = usize::MAX;
    move_cursor(&mut scroll, &mut cursor, AvailableSize { width: 10, height: 0 }, 0, i32::MAX);
    assert_eq!((scroll, cursor), (0, 0));
}

#[test]
fn cursor_wraps_from_the_top_to_the_bottom() {
    let mut scroll: usize = 0;
    let mut cursor: usize = 0;
    move_cursor(&mut scroll, &mut cursor, AvailableSize { width: 10, height: 3 }, 5, -1);
    assert_eq!(cursor, 4);
    assert!(scroll <= cursor && cursor < scroll + 3);
}
