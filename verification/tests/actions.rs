use verco::backend::{ProcessCommand, ProcessPlan};
use verco::git_actions::GitActions;
use verco::hg_actions::HgActions;
use verco::select::{Entry, State};
use verco::version_control_actions::first_line;

fn plan_strings(p: &ProcessPlan) -> Vec<Vec<(String, Vec<String>)>> {
    p.stages
        .iter()
        .map(|s| s.iter().map(|c: &ProcessCommand| (c.program.clone(), c.args.clone())).collect())
        .collect()
}

fn one(program: &str, args: &[&str]) -> Vec<Vec<(String, Vec<String>)>> {
    vec![vec![(program.to_string(), args.iter().map(|s| s.to_string()).collect())]]
}

fn file(name: &str, selected: bool, state: State) -> Entry {
    Entry { filename: name.to_string(), selected, state }
}

fn git() -> GitActions {
    GitActions { current_dir: String::from("/repo") }
}

fn hg() -> HgActions {
    HgActions { current_dir: String::from("/repo") }
}

#[test]
fn git_names_and_root() {
    let mut g = git();
    assert_eq!(g.executable_name(), "git");
    assert_eq!(g.current_dir(), "/repo");
    assert!(g.set_root(Ok(String::from("/other\nrest"))).is_ok());
    assert_eq!(g.get_root(), "/other");
    assert_eq!(g.set_root(Err(String::from("fail"))), Err(String::from("fail")));
    assert_eq!(g.get_root(), "/other");
}

#[test]
fn git_simple_plans() {
    let g = git();
    assert_eq!(plan_strings(&g.status()), one("git", &["-c", "color.status=always", "status"]));
    assert_eq!(plan_strings(&g.current_export()), one("git", &["show", "--color"]));
    assert_eq!(
        plan_strings(&g.log(20)),
        one(
            "git",
            &[
                "log",
                "--all",
                "--decorate",
                "--oneline",
                "--graph",
                "-20",
                "--format=format:%x1e%h%x1e%as%x1e%<(10,trunc)%aN%x1e%D%x1e%s",
            ]
        )
    );
    assert_eq!(plan_strings(&g.version()), one("git", &["--version"]));
}

#[test]
fn git_changed_files_of_status_listing() {
    let g = git();
    let files = g.get_current_changed_files(Ok(String::from(" M src/a.rs\0?? new.txt\0"))).unwrap();
    assert_eq!(files.len(), 2);
    assert_eq!(files[0].filename, "src/a.rs");
    assert_eq!(files[0].state, State::Modified);
    assert!(!files[0].selected);
    assert_eq!(files[1].filename, "new.txt");
    assert_eq!(files[1].state, State::Untracked);
}

#[test]
fn git_revision_files_in_pairs() {
    let g = git();
    let files = g.get_revision_changed_files(Ok(String::from("M\0a.rs\0A\0b.rs\0"))).unwrap();
    assert_eq!(files.len(), 2);
    assert_eq!(files[0].filename, "a.rs");
    assert_eq!(files[0].state, State::Modified);
    assert_eq!(files[1].filename, "b.rs");
    assert_eq!(files[1].state, State::Added);
    assert_eq!(g.get_revision_changed_files(Err(String::from("e"))).err(), Some(String::from("e")));
}

#[test]
fn hg_simple_plans() {
    let h = hg();
    assert_eq!(h.executable_name(), "hg");
    assert_eq!(plan_strings(&h.revert_all()), vec![
        vec![(String::from("hg"), vec![String::from("revert"), String::from("-C"), String::from("--all")])],
        vec![(String::from("hg"), vec![String::from("purge")])],
    ]);
    assert_eq!(plan_strings(&h.commit_all("fix")), one("hg", &["commit", "--addremove", "-m", "fix", "--color", "always"]));
    assert_eq!(plan_strings(&h.update("tip")), one("hg", &["update", "tip"]));
}

#[test]
fn hg_changed_files_of_status_listing() {
    let h = hg();
    let files = h.get_current_changed_files(Ok(String::from("M a.rs\n? b.rs\n!\nR  c.rs \n"))).unwrap();
    let got: Vec<(String, State)> = files.iter().map(|e| (e.filename.clone(), e.state)).collect();
    assert_eq!(
        got,
        vec![
            (String::from("a.rs"), State::Modified),
            (String::from("b.rs"), State::Untracked),
            (String::from("c.rs"), State::Deleted),
        ]
    );
}

#[test]
fn hg_commit_selected_prepares_files() {
    let h = hg();
    let entries = vec![
        file("gone", true, State::Missing),
        file("new", true, State::Untracked),
        file("skip", false, State::Untracked),
        file("mod", true, State::Modified),
    ];
    assert_eq!(
        plan_strings(&h.commit_selected("msg", &entries)),
        vec![
            vec![(String::from("hg"), vec![String::from("remove"), String::from("gone")])],
            vec![(String::from("hg"), vec![String::from("add"), String::from("new")])],
            vec![(
                String::from("hg"),
                ["commit", "-m", "msg", "--color", "always", "gone", "new", "mod"].iter().map(|s| s.to_string()).collect()
            )],
        ]
    );
}

#[test]
fn hg_revert_selected_purges_and_reverts_together() {
    let h = hg();
    let entries = vec![file("new", true, State::Untracked), file("mod", true, State::Modified), file("x", false, State::Modified)];
    assert_eq!(
        plan_strings(&h.revert_selected(&entries)),
        vec![vec![
            (String::from("hg"), vec![String::from("purge"), String::from("new")]),
            (
                String::from("hg"),
                ["revert", "-C", "--color", "always", "mod"].iter().map(|s| s.to_string()).collect()
            ),
        ]]
    );
    assert!(plan_strings(&h.revert_selected(&vec![file("x", false, State::Modified)])).is_empty());
}

#[test]
fn hg_revision_diff_of_selected() {
    let h = hg();
    let entries = vec![file("a", true, State::Modified), file("b", false, State::Modified)];
    assert_eq!(
        plan_strings(&h.revision_diff_selected("42", &entries)),
        one("hg", &["diff", "--change", "42", "--color", "always", "--", "a"])
    );
}

#[test]
fn first_line_of_output() {
    assert_eq!(first_line("a\nb"), Some(String::from("a")));
    assert_eq!(first_line(""), None);
}
