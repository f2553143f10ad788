use verco::actions::{Action, Actions, Command};
use verco::version_control::{command_shown, command_start, command_step, CommandStart, VersionControl};

fn strs(v: &[&str]) -> Vec<String> {
    v.iter().map(|s| s.to_string()).collect()
}

fn tag_action() -> Action {
    Action {
        name: String::from("tag"),
        key: String::from("t"),
        commands: vec![
            Command { exec_line: String::from("git tag $ -f"), prompt: Some(String::from("name?")) },
            Command { exec_line: String::from("git push --tags"), prompt: None },
        ],
    }
}

fn actions() -> Actions {
    let mut sets = Actions::new();
    sets.insert(String::from("hg"), vec![]);
    sets.insert(String::from("git"), vec![tag_action()]);
    sets
}

#[test]
fn find_current_takes_the_git_set() {
    let sets = actions();
    let vc = VersionControl::find_current("/repo", &sets).ok().unwrap();
    assert_eq!(vc.actions.len(), 1);
    assert_eq!(vc.current_dir, "/repo");
    assert!(VersionControl::find_current("/repo", &Actions::new()).is_err());
}

#[test]
fn a_name_keeps_only_its_last_set() {
    let mut sets = actions();
    sets.insert(String::from("git"), vec![]);
    assert_eq!(sets.get("git").map(|v| v.len()), Some(0));
    assert_eq!(sets.get("hg").map(|v| v.len()), Some(0));
    assert!(sets.get("svn").is_none());
    sets.insert(String::from("git"), vec![tag_action()]);
    let vc = VersionControl::find_current("/repo", &sets).ok().unwrap();
    assert_eq!(vc.actions.len(), 1);
}

#[test]
fn run_action_gives_the_commands_in_order() {
    let sets = actions();
    let vc = VersionControl::find_current("/repo", &sets).ok().unwrap();
    let commands = vc.run_action("tag").ok().unwrap();
    assert_eq!(commands.len(), 2);
    match command_start(&commands[0]) {
        CommandStart::Ask(p) => assert_eq!(p, "name?"),
        _ => panic!("the first command asks"),
    }
    assert_eq!(command_step(&commands[0], Some(String::from("v1"))), Some((String::from("git"), strs(&["tag", "v1", "-f"]))));
    assert_eq!(command_step(&commands[0], None), None);
    match command_start(&commands[1]) {
        CommandStart::Run(program, args) => {
            assert_eq!(program, "git");
            assert_eq!(args, strs(&["push", "--tags"]));
        }
        _ => panic!("the second command runs"),
    }
    assert_eq!(command_shown(None), Ok(None));
    assert_eq!(command_shown(Some(Ok(String::from("done")))), Ok(Some(String::from("done"))));
    assert_eq!(command_shown(Some(Err(String::from("bad")))), Err(String::from("bad")));
}

#[test]
fn run_action_missing_action() {
    let sets = actions();
    let vc = VersionControl::find_current("/repo", &sets).ok().unwrap();
    assert_eq!(vc.run_action("nope").err(), Some(String::from("Could not find action 'nope'.")));
}
