use vstd::prelude::*;

use crate::custom_actions::{definitions, parse_definitions};
use crate::text::{split_spec, views};

verus! {

/// A command the user defined for a key chord: the keys that run it, the program and its arguments.
pub struct CustomCommand {
    pub key_chord: String,
    pub command: String,
    pub args: Vec<String>,
}

/// The actions as plain values.
pub open spec fn actions_view(v: Seq<CustomCommand>) -> Seq<(Seq<char>, Seq<char>, Seq<Seq<char>>)> {
    v.map_values(|a: CustomCommand| (a.key_chord@, a.command@, views(a.args@)))
}

impl CustomCommand {
    /// The custom commands of `.verco/custom_commands.txt`, given its contents (none when it could
    /// not be read).
    pub fn load_custom_commands(contents: Option<String>) -> (res: Vec<CustomCommand>)
        ensures
            match contents {
                None => res@.len() == 0,
                Some(c) => actions_view(res@) == definitions(split_spec(c@, '\n')),
            },
    {
        let contents = match contents {
            Some(c) => c,
            None => return Vec::new(),
        };
        let mut defs = parse_definitions(contents.as_str());
        let ghost dv = defs@.map_values(|d: (String, String, Vec<String>)| (d.0@, d.1@, views(d.2@)));
        let mut res: Vec<CustomCommand> = Vec::new();
        let ghost n = defs@.len();
        while defs.len() > 0
            invariant
                res@.len() + defs@.len() == n,
                dv.len() == n,
                defs@.map_values(|d: (String, String, Vec<String>)| (d.0@, d.1@, views(d.2@)))
                    == dv.skip(res@.len() as int),
                actions_view(res@) == dv.take(res@.len() as int),
            decreases defs.len(),
        {
            let ghost k: int = res@.len() as int;
            let ghost before = actions_view(res@);
            let ghost od = defs@;
            let d = defs.remove(0);
            proof {
                let f = |d: (String, String, Vec<String>)| (d.0@, d.1@, views(d.2@));
                assert(od.map_values(f)[0] == dv.skip(k)[0]);
                assert(f(d) == dv[k]);
                assert(defs@.map_values(f) =~= od.map_values(f).skip(1));
                assert(dv.skip(k).skip(1) =~= dv.skip(k + 1));
            }
            let (key_chord, command, args) = d;
            res.push(CustomCommand { key_chord, command, args });
            assert(actions_view(res@) =~= before.push(dv[k]));
            assert(dv.take(k + 1) =~= dv.take(k).push(dv[k]));
        }
        assert(dv.take(n as int) == dv);
        res
    }
}

} // verus!

