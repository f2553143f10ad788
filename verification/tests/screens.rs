use verco::action::ActionKind;
use verco::action_cache::{ActionFuture, Application as ActionCache};
use verco::add_remove::{on_selection_key, Entry as SelectionEntry, SelectionKey, State as SelectionState};
use verco::application::{command_line, Application, CommandLine, ModeRequest};
use verco::async_process::ChildOutput;
use verco::ctrlc_handler::CtrlcHandler;
use verco::input::{key_to_char, KeyCode, KeyEvent, KeyModifiers};
use verco::mode::{log, move_position, ModeKind};
use verco::next::platform::{poll_process_output, ProcessStatus, ProcessTask};
use verco::next::promise::Poll;
use verco::platform::{key_of_console_event, Key};
use verco::revision_shortcut::RevisionShortcut;
use verco::scroll_view::{command_of, ScrollCommand};
use verco::settings::{open_error, Settings, SettingsError};
use verco::custom_actions::{parse_definition, CustomAction};
use verco::tui::{handle_custom_action, handle_key_chord, help_line_at, result_header_kind, CustomActionMatch, HandleChordResult, HELP_LINES};
use verco::tui_util::HeaderKind;
use verco::ui::Drawer;
use verco::worker::Worker;

fn selection(names: &[(&str, bool)]) -> Vec<SelectionEntry> {
    names
        .iter()
        .map(|(n, s)| SelectionEntry { filename: n.to_string(), selected: *s, state: SelectionState::Modified })
        .collect()
}

fn flags(entries: &[SelectionEntry]) -> Vec<bool> {
    entries.iter().map(|e| e.selected).collect()
}

#[test]
fn chords_lead_to_actions() {
    assert_eq!(handle_key_chord(&vec!['q']), (HandleChordResult::Quit, None));
    assert_eq!(handle_key_chord(&vec!['s']), (HandleChordResult::Handled, Some(ActionKind::Status)));
    assert_eq!(handle_key_chord(&vec!['l']), (HandleChordResult::Unhandled, None));
    assert_eq!(handle_key_chord(&vec!['l', 'l']), (HandleChordResult::Handled, Some(ActionKind::Log)));
    assert_eq!(handle_key_chord(&vec!['D', 'S']), (HandleChordResult::Handled, Some(ActionKind::RevisionDiffSelected)));
}

#[test]
fn help_table_lines() {
    assert_eq!(HELP_LINES, 35);
    assert_eq!(help_line_at(0), ("h", Some(ActionKind::Help)));
    assert_eq!(help_line_at(1), ("q", Some(ActionKind::Quit)));
    assert_eq!(help_line_at(2), ("", None));
    assert_eq!(help_line_at(4), ("ll", Some(ActionKind::Log)));
    assert_eq!(help_line_at(34), ("x", Some(ActionKind::CustomAction)));
}

#[test]
fn result_headers() {
    assert_eq!(result_header_kind(true, false), HeaderKind::Waiting);
    assert_eq!(result_header_kind(false, true), HeaderKind::Succeeded);
    assert_eq!(result_header_kind(false, false), HeaderKind::Error);
}

#[test]
fn selection_keys_move_and_toggle() {
    let mut entries = selection(&[("a", false), ("b", true), ("c", false)]);
    let mut cursor = 2usize;
    assert!(on_selection_key(&mut entries, &mut cursor, SelectionKey::Char('j')));
    assert_eq!(cursor, 0);
    assert!(on_selection_key(&mut entries, &mut cursor, SelectionKey::Char('k')));
    assert_eq!(cursor, 2);
    assert!(on_selection_key(&mut entries, &mut cursor, SelectionKey::Char(' ')));
    assert_eq!(flags(&entries), vec![false, true, true]);
    assert!(on_selection_key(&mut entries, &mut cursor, SelectionKey::Char('a')));
    assert_eq!(flags(&entries), vec![true, true, true]);
    assert!(on_selection_key(&mut entries, &mut cursor, SelectionKey::Char('a')));
    assert_eq!(flags(&entries), vec![false, false, false]);
    assert!(on_selection_key(&mut entries, &mut cursor, SelectionKey::Other));
    assert!(!on_selection_key(&mut entries, &mut cursor, SelectionKey::Char('\n')));
    assert!(!on_selection_key(&mut entries, &mut cursor, SelectionKey::Ctrl('c')));
    assert_eq!(cursor, 2);
    assert_eq!(entries[1].filename, "b");
}

#[test]
fn selection_state_colors() {
    let c = SelectionState::Untracked.color();
    assert_eq!((c.r, c.g, c.b), (100, 180, 255));
    let c = SelectionState::Unmerged.color();
    assert_eq!((c.r, c.g, c.b), (255, 180, 100));
}

#[test]
fn settings_defaults_and_messages() {
    let s = Settings::default();
    assert!(!s.read_only);
    assert!(!s.no_alternate_screen);
    assert_eq!(SettingsError::ConfigNotFound.to_string("/home/a/verco.toml"), "Config file /home/a/verco.toml not found");
    assert_eq!(SettingsError::InvalidConfig(String::from("bad key")).to_string("x"), "bad key");
    assert_eq!(open_error(true, String::from("m")), SettingsError::ConfigNotFound);
    assert_eq!(open_error(false, String::from("denied")), SettingsError::Io(String::from("denied")));
}

#[test]
fn application_switches_screens() {
    let mut app = Application::new();
    assert!(matches!(app.current_mode, ModeKind::Status));
    let (running, from_mode, entered) = app.on_key((80, 24), Key::Char('l'));
    assert!(running);
    assert!(from_mode.is_none());
    assert!(matches!(entered, Some(ModeRequest::Log(log::Request::Refresh))));
    assert!(matches!(app.current_mode, ModeKind::Log));
    assert!(app.is_waiting_response());
    let (running, _, entered) = app.on_key((80, 24), Key::Esc);
    assert!(!running);
    assert!(entered.is_none());
}

#[test]
fn application_enters_revision_details() {
    let mut app = Application::new();
    let req = app.enter_mode((80, 24), ModeKind::RevisionDetails(String::from("abc")));
    match req {
        Some(ModeRequest::RevisionDetails(verco::mode::revision_details::Request::Info(r))) => assert_eq!(r, "abc"),
        _ => panic!("expected a details request"),
    }
    assert_eq!(app.current_revision(), "abc");
    assert!(app.refresh_mode((80, 24), ModeKind::Tags).is_none());
    assert!(matches!(app.current_mode, ModeKind::RevisionDetails(_)));
}

#[test]
fn application_header_steps_spinner() {
    let mut app = Application::new();
    let mut drawer = Drawer::new(Vec::new(), (40, 10));
    app.draw_header(&mut drawer);
    assert_eq!(app.spinner_state, 1);
    assert!(!drawer.buf.is_empty());
}

#[test]
fn command_line_arguments() {
    assert_eq!(command_line(&vec![]), CommandLine::Run);
    assert_eq!(command_line(&vec![String::from("-h")]), CommandLine::Help);
    assert_eq!(command_line(&vec![String::from("--version")]), CommandLine::Version);
    assert_eq!(command_line(&vec![String::from("-x")]), CommandLine::Invalid(String::from("-x")));
    assert_eq!(command_line(&vec![String::from("a"), String::from("b")]), CommandLine::TooManyArgs);
}

#[test]
fn ctrlc_ignored_once() {
    let mut h = CtrlcHandler::new();
    assert!(!h.get());
    h.set(true);
    assert!(h.get());
    assert!(!h.get());
    h.set(true);
    h.ignore_next();
    assert!(!h.get());
    h.set(true);
    assert!(h.get());
}

#[test]
fn revision_shortcuts_round_trip() {
    let mut shortcuts = RevisionShortcut::new();
    let mut text = String::from("x __VERCO_NODE__abc1__VERCO_NODE__ y __VERCO_NODE__ff__VERCO_NODE__");
    let hashes = shortcuts.replace_occurrences(&mut text);
    assert_eq!(text, "x abc1 (A) y ff (B)");
    assert_eq!(hashes, vec![String::from("abc1"), String::from("ff")]);
    shortcuts.update_hashes(hashes);
    assert_eq!(shortcuts.get_hash("A"), Some("abc1"));
    assert_eq!(shortcuts.get_hash("B"), Some("ff"));
    assert_eq!(shortcuts.get_hash("C"), None);
    assert_eq!(shortcuts.get_hash("AB"), None);
    assert_eq!(RevisionShortcut::max(), 26);
}

#[test]
fn console_keys() {
    assert_eq!(key_of_console_event(0, 0x41, 'a' as u16), Some(Key::Char('a')));
    assert_eq!(key_of_console_event(0x0008, 0x41, 1), Some(Key::Ctrl('a')));
    assert_eq!(key_of_console_event(0, 0x0d, 13), Some(Key::Enter));
    assert_eq!(key_of_console_event(0, 0x20, ' ' as u16), Some(Key::Char(' ')));
    assert_eq!(key_of_console_event(0, 0x41, 0xd800), None);
}

#[test]
fn shifted_keys_are_upper_case() {
    let shift = KeyModifiers { shift: true, control: false, alt: false };
    assert_eq!(key_to_char(KeyEvent { code: KeyCode::Char('x'), modifiers: shift }), Some('X'));
    assert_eq!(key_to_char(KeyEvent::plain(KeyCode::Char('x'))), Some('x'));
    assert_eq!(key_to_char(KeyEvent::with_control(KeyCode::Char('x'))), None);
    assert_eq!(key_to_char(KeyEvent::plain(KeyCode::Enter)), None);
}

#[test]
fn positions_move_within_the_list() {
    assert_eq!(move_position(0, 10, 4, Key::Down), 1);
    assert_eq!(move_position(9, 10, 4, Key::Down), 9);
    assert_eq!(move_position(0, 10, 4, Key::Up), 0);
    assert_eq!(move_position(5, 10, 4, Key::End), 9);
    assert_eq!(move_position(5, 10, 4, Key::PageDown), 9);
    assert_eq!(move_position(5, 10, 4, Key::PageUp), 1);
    assert_eq!(move_position(5, 10, 4, Key::Char('x')), 5);
}

#[test]
fn worker_keeps_results_of_finished_tasks() {
    let mut w: Worker<u32> = Worker::new();
    w.send_task(ActionKind::Status, 1);
    w.send_task(ActionKind::Log, 2);
    w.send_task(ActionKind::Status, 3);
    assert_eq!(w.task_count(), 3);
    let canceled = w.cancel_tasks_with_kind(ActionKind::Log);
    assert_eq!(canceled.len(), 1);
    assert_eq!(canceled[0].1, 2);
    assert_eq!(w.task_count(), 2);
    w.finish_tasks(vec![Some(ChildOutput { success: true, output: String::from("done") }), None]);
    assert_eq!(w.task_count(), 1);
    let (kind, out) = w.receive_result().unwrap();
    assert_eq!(kind, ActionKind::Status);
    assert_eq!(out.output, "done");
    assert!(w.receive_result().is_none());
}

#[test]
fn process_output_when_polled() {
    let mut task = ProcessTask::new();
    assert!(matches!(poll_process_output(&task), Poll::Pending));
    task.stdout = b"out".to_vec();
    task.stderr = b"err\xff".to_vec();
    task.status = ProcessStatus::Finished(false);
    match poll_process_output(&task) {
        Poll::Failed(s) => assert_eq!(s, "out\nerr\u{fffd}"),
        _ => panic!("expected a failure"),
    }
    task.status = ProcessStatus::Finished(true);
    match poll_process_output(&task) {
        Poll::Done(s) => assert_eq!(s, "out"),
        _ => panic!("expected the output"),
    }
}

#[test]
fn readme_key_sequences_run_their_actions() {
    let table = [
        ("h", ActionKind::Help),
        ("s", ActionKind::Status),
        ("ll", ActionKind::Log),
        ("lc", ActionKind::LogCount),
        ("dd", ActionKind::CurrentDiffAll),
        ("ds", ActionKind::CurrentDiffSelected),
        ("DC", ActionKind::RevisionChanges),
        ("DD", ActionKind::RevisionDiffAll),
        ("DS", ActionKind::RevisionDiffSelected),
        ("cc", ActionKind::CommitAll),
        ("cs", ActionKind::CommitSelected),
        ("m", ActionKind::Merge),
        ("RA", ActionKind::RevertAll),
        ("rs", ActionKind::RevertSelected),
        ("rr", ActionKind::UnresolvedConflicts),
        ("ro", ActionKind::MergeTakingOther),
        ("rl", ActionKind::MergeTakingLocal),
        ("f", ActionKind::Fetch),
        ("p", ActionKind::Pull),
        ("P", ActionKind::Push),
        ("tn", ActionKind::NewTag),
        ("bb", ActionKind::ListBranches),
        ("bn", ActionKind::NewBranch),
        ("bd", ActionKind::DeleteBranch),
        ("x", ActionKind::CustomAction),
    ];
    for (keys, action) in table.iter() {
        let chord: Vec<char> = keys.chars().collect();
        assert_eq!(handle_key_chord(&chord), (HandleChordResult::Handled, Some(*action)), "{}", keys);
    }
    assert_eq!(handle_key_chord(&vec!['q']).0, HandleChordResult::Quit);
}

#[test]
fn readme_custom_action_example() {
    let (shortcut, command, args) = parse_definition("gv git --version").unwrap();
    assert_eq!(shortcut, "gv");
    assert_eq!(command, "git");
    assert_eq!(args, vec![String::from("--version")]);
    assert!(parse_definition("lonely").is_none());
    let actions = vec![CustomAction { shortcut, command, args }];
    assert_eq!(handle_custom_action(&actions, &vec!['g']), CustomActionMatch::Wait);
    assert_eq!(handle_custom_action(&actions, &vec!['g', 'v']), CustomActionMatch::Run(0));
    assert_eq!(handle_custom_action(&actions, &vec!['z']), CustomActionMatch::NoMatch);
}

#[test]
fn toggling_twice_restores_the_selection() {
    let mut entries = selection(&[("a", false), ("b", true)]);
    let mut cursor = 1usize;
    on_selection_key(&mut entries, &mut cursor, SelectionKey::Char(' '));
    on_selection_key(&mut entries, &mut cursor, SelectionKey::Char(' '));
    assert_eq!(flags(&entries), vec![false, true]);
    on_selection_key(&mut entries, &mut cursor, SelectionKey::Char('j'));
    on_selection_key(&mut entries, &mut cursor, SelectionKey::Char('k'));
    assert_eq!(cursor, 1);
}

#[test]
fn help_shortcuts_match_chords() {
    for i in 0..HELP_LINES {
        let (keys, action) = help_line_at(i);
        if let Some(action) = action {
            let chord: Vec<char> = keys.chars().collect();
            let expected = if action == ActionKind::Quit {
                (HandleChordResult::Quit, None)
            } else {
                (HandleChordResult::Handled, Some(action))
            };
            assert_eq!(handle_key_chord(&chord), expected);
        }
    }
}

#[test]
fn readme_view_keybindings() {
    let ctrl = |c: char| KeyEvent::with_control(KeyCode::Char(c));
    assert_eq!(command_of(ctrl('j')), ScrollCommand::Down);
    assert_eq!(command_of(ctrl('n')), ScrollCommand::Down);
    assert_eq!(command_of(KeyEvent::plain(KeyCode::Down)), ScrollCommand::Down);
    assert_eq!(command_of(ctrl('k')), ScrollCommand::Up);
    assert_eq!(command_of(ctrl('p')), ScrollCommand::Up);
    assert_eq!(command_of(KeyEvent::plain(KeyCode::Up)), ScrollCommand::Up);
    assert_eq!(command_of(ctrl('f')), ScrollCommand::ToggleFilter);
    assert_eq!(command_of(KeyEvent::plain(KeyCode::Char('/'))), ScrollCommand::ToggleFilter);
    assert_eq!(command_of(ctrl('w')), ScrollCommand::ClearFilter);
    assert_eq!(command_of(ctrl('h')), ScrollCommand::DeleteChar);
    assert_eq!(command_of(KeyEvent::plain(KeyCode::Backspace)), ScrollCommand::DeleteChar);
    assert_eq!(command_of(ctrl('c')), ScrollCommand::Cancel);
    assert_eq!(command_of(KeyEvent::plain(KeyCode::Esc)), ScrollCommand::Cancel);
}

#[test]
fn action_cache_runs_one_action_per_kind() {
    let mut cache: ActionCache<(), u32> = ActionCache::new((), Vec::new());
    let empty = cache.get_cached_action_result(ActionKind::Status);
    assert!(empty.success);
    assert_eq!(empty.output, "");
    cache.run_action(ActionFuture { kind: ActionKind::Status, task: 1 });
    cache.run_action(ActionFuture { kind: ActionKind::Status, task: 2 });
    cache.run_action(ActionFuture { kind: ActionKind::Log, task: 3 });
    assert_eq!(cache.pending_actions.task_count(), 2);
    assert!(cache.has_pending_action_of_type(ActionKind::Log));
    assert!(!cache.has_pending_action_of_type(ActionKind::Push));
    let done = cache.poll_and_check_action(
        ActionKind::Status,
        vec![Some(ChildOutput { success: true, output: String::from("clean") }), None],
    );
    assert!(done);
    assert_eq!(cache.pending_actions.task_count(), 1);
    assert!(!cache.has_pending_action_of_type(ActionKind::Status));
    assert_eq!(cache.get_cached_action_result(ActionKind::Status).output, "clean");
    assert!(!cache.poll_and_check_action(ActionKind::Status, vec![None]));
    cache.set_cached_action_result(ActionKind::Log, ChildOutput { success: false, output: String::from("x") });
    cache.set_cached_action_result(ActionKind::Log, ChildOutput { success: false, output: String::from("y") });
    let log = cache.get_cached_action_result(ActionKind::Log);
    assert!(!log.success);
    assert_eq!(log.output, "y");
    assert_eq!(cache.get_cached_action_result(ActionKind::Status).output, "clean");
}
