use vstd::prelude::*;

use crate::text::{split, split_spec, trim, trim_spec, views};

verus! {

/// A command the user defined: the keys that run it, the program and its arguments.
pub struct CustomAction {
    pub shortcut: String,
    pub command: String,
    pub args: Vec<String>,
}

/// A definition as plain values: keys, program, arguments.
pub open spec fn definition_view(shortcut: Seq<char>, command: Seq<char>, args: Seq<Seq<char>>) -> (Seq<char>, Seq<char>, Seq<Seq<char>>) {
    (shortcut, command, args)
}

/// The definitions that the lines of a definitions file give: each line is trimmed; the words
/// between single spaces are the keys, the program and its arguments; lines with fewer than two
/// words are skipped.
pub open spec fn definitions(lines: Seq<Seq<char>>) -> Seq<(Seq<char>, Seq<char>, Seq<Seq<char>>)>
    decreases lines.len(),
{
    if lines.len() == 0 {
        Seq::empty()
    } else {
        let prev = definitions(lines.drop_last());
        let line = trim_spec(lines.last());
        let words = split_spec(line, ' ');
        if line.len() == 0 || words.len() < 2 {
            prev
        } else {
            prev.push((words[0], words[1], words.skip(2)))
        }
    }
}

/// The words of one definition line (trimmed): keys, program and arguments, if it has at least
/// two words.
pub fn parse_definition(line: &str) -> (res: Option<(String, String, Vec<String>)>)
    ensures
        ({
            let l = trim_spec(line@);
            let words = split_spec(l, ' ');
            if l.len() == 0 || words.len() < 2 {
                res is None
            } else {
                res matches Some((k, c, a)) && k@ == words[0] && c@ == words[1] && views(a@)
                    == words.skip(2)
            }
        }),
{
    let line = trim(line);
    if line.as_str().is_empty() {
        return None;
    }
    let mut words = split(line.as_str(), ' ');
    if words.len() < 2 {
        return None;
    }
    let ghost all = views(words@);
    let first = words.remove(0);
    let second = words.remove(0);
    assert(views(words@) =~= all.skip(2));
    Some((first, second, words))
}

/// The definitions of a file's contents, one per line.
pub fn parse_definitions(contents: &str) -> (res: Vec<(String, String, Vec<String>)>)
    ensures
        res@.map_values(|d: (String, String, Vec<String>)| (d.0@, d.1@, views(d.2@)))
            == definitions(split_spec(contents@, '\n')),
{
    let ls = split(contents, '\n');
    let ghost lv = split_spec(contents@, '\n');
    let mut res: Vec<(String, String, Vec<String>)> = Vec::new();
    let mut i: usize = 0;
    while i < ls.len()
        invariant
            i <= ls@.len(),
            views(ls@) == lv,
            res@.map_values(|d: (String, String, Vec<String>)| (d.0@, d.1@, views(d.2@)))
                == definitions(lv.take(i as int)),
        decreases ls.len() - i,
    {
        assert(lv.take(i + 1).drop_last() == lv.take(i as int));
        match parse_definition(ls[i].as_str()) {
            Some(d) => {
                let ghost before = res@.map_values(
                    |d: (String, String, Vec<String>)| (d.0@, d.1@, views(d.2@)),
                );
                let ghost dv = (d.0@, d.1@, views(d.2@));
                res.push(d);
                assert(res@.map_values(
                    |d: (String, String, Vec<String>)| (d.0@, d.1@, views(d.2@)),
                ) =~= before.push(dv));
            },
            None => {},
        }
        i += 1;
    }
    assert(lv.take(lv.len() as int) == lv);
    res
}

/// The actions as plain values.
pub open spec fn actions_view(v: Seq<CustomAction>) -> Seq<(Seq<char>, Seq<char>, Seq<Seq<char>>)> {
    v.map_values(|a: CustomAction| (a.shortcut@, a.command@, views(a.args@)))
}

impl CustomAction {
    /// The custom actions of `.verco/custom_actions.txt`, given its contents (none when it could
    /// not be read).
    pub fn load_custom_actions(contents: Option<String>) -> (res: Vec<CustomAction>)
        ensures
            match contents {
                None => res@.len() == 0,
                Some(c) => actions_view(res@) == definitions(split_spec(c@, '\n')),
            },
    {
        let contents = match contents {
            Some(c) => c,
            None => return Vec::new(),
        };
        let mut defs = parse_definitions(contents.as_str());
        let ghost dv = defs@.map_values(|d: (String, String, Vec<String>)| (d.0@, d.1@, views(d.2@)));
        let mut res: Vec<CustomAction> = Vec::new();
        let ghost n = defs@.len();
        while defs.len() > 0
            invariant
                res@.len() + defs@.len() == n,
                dv.len() == n,
                defs@.map_values(|d: (String, String, Vec<String>)| (d.0@, d.1@, views(d.2@)))
                    == dv.skip(res@.len() as int),
                actions_view(res@) == dv.take(res@.len() as int),
            decreases defs.len(),
        {
            let ghost k: int = res@.len() as int;
            let ghost before = actions_view(res@);
            let ghost od = defs@;
            let d = defs.remove(0);
            proof {
                let f = |d: (String, String, Vec<String>)| (d.0@, d.1@, views(d.2@));
                assert(od.map_values(f)[0] == dv.skip(k)[0]);
                assert(f(d) == dv[k]);
                assert(defs@.map_values(f) =~= od.map_values(f).skip(1));
                assert(dv.skip(k).skip(1) =~= dv.skip(k + 1));
            }
            let (shortcut, command, args) = d;
            res.push(CustomAction { shortcut, command, args });
            assert(actions_view(res@) =~= before.push(dv[k]));
            assert(dv.take(k + 1) =~= dv.take(k).push(dv[k]));
        }
        assert(dv.take(n as int) == dv);
        res
    }
}

} // verus!
