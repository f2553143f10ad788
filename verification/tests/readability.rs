use verco::backend::{git, hg, plastic};
use verco::revision_shortcut::RevisionShortcut;

#[test]
fn git_status_with_known_codes_is_readable() {
    assert!(git::status_output_readable_exec("## main\0 M a.txt\0?? b.txt\0"));
    assert!(git::status_output_readable_exec("## main\0a\0"));
    assert!(git::status_output_readable_exec(""));
}

#[test]
fn git_status_with_an_unknown_code_is_not() {
    assert!(!git::status_output_readable_exec("## main\0XY a.txt\0"));
}

#[test]
fn git_changes_are_checked_pair_by_pair() {
    assert!(git::changes_readable_exec("M\0a.txt\0A\0b.txt\0"));
    assert!(git::changes_readable_exec(""));
    assert!(!git::changes_readable_exec("M\0a.txt\0Z\0b.txt\0"));
    assert!(!git::changes_readable_exec("Z"));
}

#[test]
fn hg_status_lines_need_a_code() {
    assert!(hg::status_output_readable("M a.txt\n? b.txt\n"));
    assert!(!hg::status_output_readable("M a.txt\nX b.txt\n"));
}

#[test]
fn plastic_status_lines_need_a_code() {
    assert!(plastic::status_output_readable("CH\x1fa.txt\nPR\x1fb.txt\n"));
    assert!(!plastic::status_output_readable("XX\x1fa.txt\n"));
}

#[test]
fn marked_hashes_are_found_without_overlap() {
    let mut shortcuts = RevisionShortcut::new();
    let mut text = String::from(
        "__VERCO_NODE__abc__VERCO_NODE____VERCO_NODE__12__VERCO_NODE__ x __VERCO_NODE__zz__VERCO_NODE__",
    );
    let hashes = shortcuts.replace_occurrences(&mut text);
    assert_eq!(hashes, vec![String::from("abc"), String::from("12")]);
    assert_eq!(text, "abc (A)12 (B) x __VERCO_NODE__zz__VERCO_NODE__");
}
