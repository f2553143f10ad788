use vstd::prelude::*;

verus! {

/// A command of an action: the command line, and the prompt whose answer fills its `$`.
pub struct Command {
    pub exec_line: String,
    pub prompt: Option<String>,
}

/// An action the user runs by its key: a name and its commands.
pub struct Action {
    pub name: String,
    pub key: String,
    pub commands: Vec<Command>,
}

/// No two sets share a name.
pub open spec fn names_unique(sets: Seq<(Seq<char>, Seq<Action>)>) -> bool {
    forall|i: int, j: int| 0 <= i < j < sets.len() ==> (#[trigger] sets[i]).0 != (#[trigger] sets[j]).0
}

/// Whether a set has that name.
pub open spec fn has_set(sets: Seq<(Seq<char>, Seq<Action>)>, name: Seq<char>) -> bool {
    exists|i: int| 0 <= i < sets.len() && (#[trigger] sets[i]).0 == name
}

/// The sets of actions, each under the name of its version control system; a name has at
/// most one set.
pub struct Actions {
    sets: Vec<(String, Vec<Action>)>,
}

impl View for Actions {
    type V = Seq<(Seq<char>, Seq<Action>)>;

    closed spec fn view(&self) -> Seq<(Seq<char>, Seq<Action>)> {
        self.sets@.map_values(|p: (String, Vec<Action>)| (p.0@, p.1@))
    }
}

impl Actions {
    #[verifier::type_invariant]
    closed spec fn wf(self) -> bool {
        names_unique(self@)
    }

    /// No sets.
    pub fn new() -> (res: Actions)
        ensures
            res@.len() == 0,
    {
        Actions { sets: Vec::new() }
    }

    /// Puts `set` under `name`: it replaces the set of that name, if there is one, else it is
    /// added at the end.
    pub fn insert(&mut self, name: String, set: Vec<Action>)
        ensures
            names_unique(final(self)@),
            has_set(old(self)@, name@) ==> final(self)@ == old(self)@.map_values(
                |p: (Seq<char>, Seq<Action>)| if p.0 == name@ { (name@, set@) } else { p },
            ),
            !has_set(old(self)@, name@) ==> final(self)@ == old(self)@.push((name@, set@)),
    {
        proof {
            use_type_invariant(&*self);
        }
        let ghost before = self@;
        let mut sets: Vec<(String, Vec<Action>)> = Vec::new();
        std::mem::swap(&mut sets, &mut self.sets);
        assert(sets@.map_values(|p: (String, Vec<Action>)| (p.0@, p.1@)) == before);
        let mut i: usize = 0;
        while i < sets.len()
            invariant
                i <= sets@.len(),
                sets@.map_values(|p: (String, Vec<Action>)| (p.0@, p.1@)) == before,
                names_unique(before),
                before == old(self)@,
                forall|j: int| 0 <= j < i ==> (#[trigger] before[j]).0 != name@,
            decreases sets.len() - i,
        {
            if crate::text::str_equal(sets[i].0.as_str(), name.as_str()) {
                let ghost n = name@;
                let ghost s = set@;
                sets.set(i, (name, set));
                let ghost after = sets@.map_values(|p: (String, Vec<Action>)| (p.0@, p.1@));
                assert(after =~= before.map_values(
                    |p: (Seq<char>, Seq<Action>)| if p.0 == n { (n, s) } else { p },
                )) by {
                    assert forall|k: int| 0 <= k < before.len() && k != i implies before[k].0 != n by {
                        assert(before[i as int].0 == n);
                        if k > i {
                            assert(before[i as int].0 != before[k].0);
                        }
                    }
                }
                assert forall|k: int| 0 <= k < after.len() implies (#[trigger] after[k]).0 == before[k].0 by {
                    if k == i {
                        assert(before[i as int].0 == n);
                    }
                }
                assert(before[i as int].0 == n);
                assert(has_set(before, n));
                self.sets = sets;
                assert(self@ == after);
                return;
            }
            i = i + 1;
        }
        let ghost n = name@;
        let ghost s = set@;
        sets.push((name, set));
        assert(sets@.map_values(|p: (String, Vec<Action>)| (p.0@, p.1@)) =~= before.push((n, s)));
        self.sets = sets;
    }

    /// The set named `name`, if there is one.
    pub fn get(&self, name: &str) -> (res: Option<&Vec<Action>>)
        ensures
            names_unique(self@),
            res matches Some(v) ==> exists|i: int| 0 <= i < self@.len() && self@[i].0 == name@
                && self@[i].1 == v@,
            res is None <==> !has_set(self@, name@),
    {
        proof {
            use_type_invariant(self);
        }
        let mut i: usize = 0;
        while i < self.sets.len()
            invariant
                i <= self.sets@.len(),
                names_unique(self@),
                forall|j: int| 0 <= j < i ==> (#[trigger] self@[j]).0 != name@,
            decreases self.sets.len() - i,
        {
            if crate::text::str_equal(self.sets[i].0.as_str(), name) {
                assert(self@[i as int].0 == name@);
                return Some(&self.sets[i].1);
            }
            i = i + 1;
        }
        None
    }
}

} // verus!
