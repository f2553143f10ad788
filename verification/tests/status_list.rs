use verco::next::application::Key;
use verco::next::backend::FileStatus;
use verco::next::mode::status::{Entry, Mode, State};
use verco::next::mode::ModeContext;

fn mode_with(names: &[&str]) -> Mode {
    let mut mode = Mode::new();
    for n in names {
        mode.entries.push(Entry { selected: false, name: n.to_string(), status: FileStatus::Modified });
    }
    mode
}

fn selected(mode: &Mode) -> Vec<bool> {
    mode.entries.iter().map(|e| e.selected).collect()
}

#[test]
fn space_flips_the_entry_under_the_cursor() {
    let ctx = ModeContext { viewport_size: (40, 20) };
    let mut mode = mode_with(&["a", "b", "c"]);
    mode.on_key(&ctx, Key::Down);
    assert_eq!(mode.select.cursor, 1);
    let (_, _, request) = mode.on_key(&ctx, Key::Char(' '));
    assert!(request.is_none());
    assert_eq!(selected(&mode), vec![false, true, false]);
    assert_eq!(mode.state, State::Idle);
}

#[test]
fn control_a_selects_all_then_clears_all() {
    let ctx = ModeContext { viewport_size: (40, 20) };
    let mut mode = mode_with(&["a", "b"]);
    mode.on_key(&ctx, Key::Char(' '));
    mode.on_key(&ctx, Key::Ctrl('a'));
    assert_eq!(selected(&mode), vec![true, true]);
    mode.on_key(&ctx, Key::Ctrl('a'));
    assert_eq!(selected(&mode), vec![false, false]);
    assert_eq!(mode.entries[1].name, "b");
}
