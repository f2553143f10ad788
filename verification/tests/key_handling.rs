use verco::action::{ActionKind, LogColor};
use verco::custom_actions::CustomAction;
use verco::text::parse_usize;
use verco::backend::{FileStatus, RevisionEntry};
use verco::input::{KeyCode, KeyEvent};
use verco::mode::status::{Mode as StatusMode, Request, State, WaitOperation};
use verco::platform::Key;
use verco::scroll_view::ScrollView;
use verco::tui::{asks_selection, custom_action_listing, input_prompt, log_count, show_step, ShowStep};
use verco::tui_util::{header_pieces, Header, HeaderColor, HeaderKind, TerminalSize};

fn size() -> TerminalSize {
    TerminalSize { width: 40, height: 20 }
}

#[test]
fn escape_with_no_chord_quits() {
    let mut view = ScrollView::new();
    let mut chord: Vec<char> = Vec::new();
    let step = show_step(&mut view, &mut chord, KeyEvent::plain(KeyCode::Esc), size());
    assert_eq!(step, ShowStep::Quit);
}

#[test]
fn control_c_clears_a_chord() {
    let mut view = ScrollView::new();
    let mut chord: Vec<char> = vec!['l'];
    let step = show_step(&mut view, &mut chord, KeyEvent::with_control(KeyCode::Char('c')), size());
    assert_eq!(step, ShowStep::Continue);
    assert!(chord.is_empty());
}

#[test]
fn chord_runs_after_its_last_key() {
    let mut view = ScrollView::new();
    let mut chord: Vec<char> = Vec::new();
    let step = show_step(&mut view, &mut chord, KeyEvent::plain(KeyCode::Char('l')), size());
    assert_eq!(step, ShowStep::Continue);
    assert_eq!(chord, vec!['l']);
    let step = show_step(&mut view, &mut chord, KeyEvent::plain(KeyCode::Char('c')), size());
    assert_eq!(step, ShowStep::Run(ActionKind::LogCount));
    assert!(chord.is_empty());
}

#[test]
fn single_key_action_and_quit() {
    let mut view = ScrollView::new();
    let mut chord: Vec<char> = Vec::new();
    let step = show_step(&mut view, &mut chord, KeyEvent::plain(KeyCode::Char('s')), size());
    assert_eq!(step, ShowStep::Run(ActionKind::Status));
    let step = show_step(&mut view, &mut chord, KeyEvent::plain(KeyCode::Char('q')), size());
    assert_eq!(step, ShowStep::Quit);
}

#[test]
fn unknown_chord_is_dropped() {
    let mut view = ScrollView::new();
    let mut chord: Vec<char> = Vec::new();
    let step = show_step(&mut view, &mut chord, KeyEvent::plain(KeyCode::Char('z')), size());
    assert_eq!(step, ShowStep::Continue);
    assert!(chord.is_empty());
}

#[test]
fn view_takes_navigation_keys() {
    let mut view = ScrollView::new();
    let mut chord: Vec<char> = vec!['l'];
    let step = show_step(&mut view, &mut chord, KeyEvent::plain(KeyCode::Char('/')), size());
    assert_eq!(step, ShowStep::Continue);
    assert_eq!(chord, vec!['l']);
    assert!(view.is_filtering);
}

#[test]
fn header_is_as_wide_as_the_terminal() {
    let header = Header { action_name: "status", directory_name: "/repo" };
    let pieces = header_pieces(&header, HeaderKind::Succeeded, 40);
    assert_eq!(pieces.len(), 4);
    assert_eq!(pieces[0].text, "Verco @ /repo ");
    assert_eq!(pieces[1].text, " status ");
    assert_eq!(pieces[3].text, " ok ");
    let line: String = pieces.iter().map(|p| p.text.as_str()).collect();
    assert_eq!(line.len(), 40);
    assert_eq!(pieces[2].text, " ".repeat(40 - 14 - 8 - 4));
    assert_eq!(pieces[0].background, HeaderColor::Green);
    assert_eq!(pieces[1].background, HeaderColor::DarkGreen);
    assert_eq!(pieces[1].foreground, HeaderColor::White);
    assert_eq!(pieces[2].foreground, HeaderColor::Black);
}

#[test]
fn action_names_follow_the_table() {
    assert_eq!(ActionKind::UnresolvedConflicts.name(), "list unresolved conflicts");
    assert_eq!(ActionKind::MergeTakingOther.name(), "resolve taking other");
    assert_eq!(ActionKind::MergeTakingLocal.name(), "resolve taking local");
    assert_eq!(ActionKind::LogCount.name(), "log count");
}

fn conflicted() -> StatusMode {
    let mut mode = StatusMode::new();
    mode.entries.push(RevisionEntry::new("a.txt".to_string(), FileStatus::Unmerged));
    mode.entries.push(RevisionEntry::new("b.txt".to_string(), FileStatus::Modified));
    mode.entries[0].selected = true;
    mode
}

#[test]
fn other_key_takes_the_other_side() {
    let mut mode = conflicted();
    let (_, request) = mode.on_key(20, Key::Char('O'));
    assert_eq!(mode.state, State::Waiting(WaitOperation::ResolveTakingOther));
    match request {
        Some(Request::ResolveTakingTheirs(entries)) => {
            assert_eq!(entries.len(), 1);
            assert_eq!(entries[0].name, "a.txt");
        },
        _ => panic!("expected a request to take the other side"),
    }
}

#[test]
fn local_key_takes_the_local_side() {
    let mut mode = conflicted();
    let (_, request) = mode.on_key(20, Key::Char('L'));
    assert_eq!(mode.state, State::Waiting(WaitOperation::ResolveTakingLocal));
    assert!(matches!(request, Some(Request::ResolveTakingOurs(_))));
}

#[test]
fn log_count_reads_a_number() {
    assert_eq!(log_count(" 12 \n"), Ok(12));
    assert_eq!(log_count("+7"), Ok(7));
    assert_eq!(log_count("ten"), Err("could not parse a number from ten".to_string()));
    assert_eq!(log_count(" -1"), Err("could not parse a number from  -1".to_string()));
    assert_eq!(log_count(""), Err("could not parse a number from ".to_string()));
    assert!(log_count("99999999999999999999999999").is_err());
}

#[test]
fn numbers_read_as_std_reads_them() {
    for s in ["0", "42", "+3", "+", "-3", "", "1a", "007", " 1", "18446744073709551615", "18446744073709551616"] {
        assert_eq!(parse_usize(s), s.parse::<usize>().ok(), "{:?}", s);
    }
}

#[test]
fn custom_actions_are_listed_in_order() {
    let actions = vec![
        CustomAction { shortcut: "gp".to_string(), command: "git".to_string(), args: vec!["push".to_string(), "-f".to_string()] },
        CustomAction { shortcut: "b".to_string(), command: "make".to_string(), args: vec![] },
    ];
    let listing = custom_action_listing(&actions);
    assert_eq!(listing, vec![
        ("gp".to_string(), "\tgit push -f".to_string()),
        ("b".to_string(), "\tmake".to_string()),
    ]);
}

#[test]
fn log_lines_are_drawn_field_by_field() {
    let parts = ActionKind::Log.line_formatter("* \x1eabc123\x1e2020-01-01\x1eme\x1emain\x1emessage\x1emore", 80);
    let texts: Vec<&str> = parts.iter().map(|p| p.text.as_str()).collect();
    assert_eq!(texts, vec!["*  ", "abc123 ", "2020-01-01 ", "me ", "main ", "message\x1emore "]);
    let colors: Vec<Option<LogColor>> = parts.iter().map(|p| p.color).collect();
    assert_eq!(
        colors,
        vec![
            Some(LogColor::White),
            Some(LogColor::Yellow),
            Some(LogColor::Blue),
            Some(LogColor::Green),
            Some(LogColor::Red),
            Some(LogColor::White),
        ]
    );
}

#[test]
fn log_lines_are_cut_to_the_width() {
    let parts = ActionKind::LogCount.line_formatter("abcdef\x1eg", 4);
    assert_eq!(parts.len(), 1);
    assert_eq!(parts[0].text, "abc ");
}

#[test]
fn other_lines_are_drawn_as_they_are() {
    let parts = ActionKind::Status.line_formatter("M a.txt\x1eb", 2);
    assert_eq!(parts.len(), 1);
    assert_eq!(parts[0].text, "M a.txt\x1eb");
    assert_eq!(parts[0].color, None);
}

#[test]
fn actions_ask_for_what_they_need() {
    assert_eq!(input_prompt(ActionKind::LogCount), Some("logs to show (ctrl+c to cancel)"));
    assert_eq!(input_prompt(ActionKind::DeleteBranch), Some("branch to delete (ctrl+c to cancel)"));
    assert_eq!(input_prompt(ActionKind::Status), None);
    assert!(asks_selection(ActionKind::CommitSelected));
    assert!(!asks_selection(ActionKind::CommitAll));
}
