use verco::backend::git::{parse_file_status, Git};
use verco::backend::hg::Hg;
use verco::backend::{sort_by_status, sort_tags_by_name, FileStatus, ProcessCommand, ProcessPlan, RevisionEntry, TagEntry};
use verco::text::{chars_of, lines, split, splitn, str_byte_len, str_equal, string_of, trim, usize_to_string};

fn command_strings(c: &ProcessCommand) -> (String, Vec<String>) {
    (c.program.clone(), c.args.clone())
}

fn plan_strings(p: &ProcessPlan) -> Vec<Vec<(String, Vec<String>)>> {
    p.stages.iter().map(|s| s.iter().map(command_strings).collect()).collect()
}

fn strs(v: &[&str]) -> Vec<String> {
    v.iter().map(|s| s.to_string()).collect()
}

fn entry(name: &str, status: FileStatus) -> RevisionEntry {
    RevisionEntry { selected: false, name: name.to_string(), status }
}

#[test]
fn trim_removes_surrounding_whitespace() {
    assert_eq!(trim("  a b \n"), "a b");
    assert_eq!(trim(""), "");
    assert_eq!(trim(" \t "), "");
}

#[test]
fn split_matches_str_split() {
    for (s, sep) in [("a,b,,c", ','), ("", ','), (",", ','), ("abc", ','), ("x\0y\0", '\0')] {
        let expected: Vec<String> = s.split(sep).map(String::from).collect();
        assert_eq!(split(s, sep), expected);
    }
}

#[test]
fn splitn_matches_str_splitn() {
    for (s, n) in [("a b c d", 2usize), ("a b c d", 6), ("", 3), ("a b", 1)] {
        let expected: Vec<String> = s.splitn(n, ' ').map(String::from).collect();
        assert_eq!(splitn(s, n, ' '), expected);
    }
}

#[test]
fn lines_matches_str_lines() {
    for s in ["a\nb\r\nc", "a\n", "", "\n\n", "one"] {
        let expected: Vec<String> = s.lines().map(String::from).collect();
        assert_eq!(lines(s), expected);
    }
}

#[test]
fn small_string_helpers() {
    assert_eq!(usize_to_string(0), "0");
    assert_eq!(usize_to_string(1207), "1207");
    assert!(str_equal("abc", "abc"));
    assert!(!str_equal("abc", "abd"));
    assert_eq!(str_byte_len("é1"), 3);
    let c = chars_of("héllo");
    assert_eq!(c.len(), 5);
    assert_eq!(string_of(&c, 1, 3), "él");
}

#[test]
fn git_file_status_letters() {
    assert_eq!(parse_file_status("M "), FileStatus::Modified);
    assert_eq!(parse_file_status("A "), FileStatus::Added);
    assert_eq!(parse_file_status("D "), FileStatus::Deleted);
    assert_eq!(parse_file_status("R "), FileStatus::Renamed);
    assert_eq!(parse_file_status("??"), FileStatus::Untracked);
    assert_eq!(parse_file_status("C "), FileStatus::Copied);
    assert_eq!(parse_file_status("UU"), FileStatus::Unmerged);
    assert_eq!(parse_file_status(" M"), FileStatus::Clean);
}

#[test]
fn git_status_reads_header_and_entries() {
    let git = Git;
    let info = git.status(Ok(String::from("## main\0M  src/a.rs\0?? new.txt\0x\0"))).ok().unwrap();
    assert_eq!(info.header, "## main");
    assert_eq!(info.entries.len(), 2);
    assert_eq!(info.entries[0].name, "src/a.rs");
    assert_eq!(info.entries[0].status, FileStatus::Modified);
    assert_eq!(info.entries[1].name, "new.txt");
    assert_eq!(info.entries[1].status, FileStatus::Untracked);
    assert!(git.status(Err(String::from("boom"))).is_err());
}

#[test]
fn git_log_reads_fields() {
    let git = Git;
    let (first, entries) = git.log(3, Ok(String::from("* \0abc\02020-01-02\0Ann\0HEAD\0first line\n|\0"))).ok().unwrap();
    assert_eq!(first, 3);
    assert_eq!(entries.len(), 2);
    assert_eq!(entries[0].graph, "* ");
    assert_eq!(entries[0].hash, "abc");
    assert_eq!(entries[0].date, "2020-01-02");
    assert_eq!(entries[0].author, "Ann");
    assert_eq!(entries[0].refs, "HEAD");
    assert_eq!(entries[0].message, "first line");
    assert_eq!(entries[1].graph, "|");
    assert_eq!(entries[1].hash, "");
}

#[test]
fn git_root_is_trimmed_output() {
    let (root, _) = Git::try_new(Ok(String::from("/home/me/repo\n"))).unwrap();
    assert_eq!(root, "/home/me/repo");
    assert!(Git::try_new(Err(String::from("not a repository"))).is_none());
}

#[test]
fn git_tags_are_lines() {
    let tags = Git.tags(Ok(String::from("v1\nv2\n"))).ok().unwrap();
    let names: Vec<String> = tags.iter().map(|t| t.name.clone()).collect();
    assert_eq!(names, strs(&["v1", "v2"]));
}

#[test]
fn git_commit_plan_adds_then_commits() {
    let git = Git;
    let plan = git.commit("msg", &[]);
    assert_eq!(
        plan_strings(&plan),
        vec![
            vec![(String::from("git"), strs(&["add", "--all"]))],
            vec![(String::from("git"), strs(&["commit", "-m", "msg"]))],
        ]
    );
    let plan = git.commit("m", &[entry("a", FileStatus::Modified), entry("b", FileStatus::Added)]);
    assert_eq!(
        plan_strings(&plan),
        vec![
            vec![(String::from("git"), strs(&["add", "--", "a", "b"]))],
            vec![(String::from("git"), strs(&["commit", "-m", "m"]))],
        ]
    );
}

#[test]
fn git_checkout_command() {
    let c = Git.checkout("abc");
    assert_eq!(command_strings(&c).0, "git");
    assert!(command_strings(&c).1.contains(&String::from("abc")));
}

#[test]
fn hg_root_is_trimmed_output() {
    let (root, _) = Hg::try_new(Ok(String::from("  /r  \n"))).unwrap();
    assert_eq!(root, "/r");
}

#[test]
fn sort_by_status_orders_and_keeps_entries() {
    let sorted = sort_by_status(vec![
        entry("u", FileStatus::Untracked),
        entry("m", FileStatus::Modified),
        entry("a", FileStatus::Added),
        entry("m2", FileStatus::Modified),
    ]);
    let names: Vec<String> = sorted.iter().map(|e| e.name.clone()).collect();
    assert_eq!(names.len(), 4);
    for w in sorted.windows(2) {
        assert!(w[0].status <= w[1].status);
    }
    let mut sorted_names = names.clone();
    sorted_names.sort();
    assert_eq!(sorted_names, strs(&["a", "m", "m2", "u"]));
}

#[test]
fn sort_tags_by_name_orders_names() {
    let sorted = sort_tags_by_name(vec![
        TagEntry { name: String::from("v2") },
        TagEntry { name: String::from("v10") },
        TagEntry { name: String::from("a") },
    ]);
    let names: Vec<String> = sorted.iter().map(|t| t.name.clone()).collect();
    assert_eq!(names, strs(&["a", "v10", "v2"]));
}

#[test]
fn unknown_status_text_is_cut_at_nine_bytes() {
    assert_eq!(FileStatus::Unknown(String::from("abcdefghijkl")).as_str(), "abcdefghi");
    assert_eq!(FileStatus::Unknown(String::from("short")).as_str(), "short");
    assert_eq!(FileStatus::Modified.as_str(), "modified");
    assert_eq!(FileStatus::max_len(), 9);
}
