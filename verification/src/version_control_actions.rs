use vstd::prelude::*;

use crate::backend::{command, command_view, commands_view, plan_view, serial_plan, ProcessCommand, ProcessPlan};
use crate::select::Entry;
use crate::text::{byte_len, split_spec, trim_spec, views};

verus! {

/// A plan of one command.
pub fn single(program: &str, args: Vec<String>) -> (res: ProcessPlan)
    ensures
        plan_view(res) == seq![seq![(program@, views(args@))]],
{
    let mut stage: Vec<ProcessCommand> = Vec::new();
    stage.push(command(program, args));
    let mut stages: Vec<Vec<ProcessCommand>> = Vec::new();
    stages.push(stage);
    let res = ProcessPlan { stages };
    assert(plan_view(res) =~~= seq![seq![(program@, views(args@))]]);
    res
}

/// A plan that starts all the commands together.
pub fn parallel_plan(commands: Vec<ProcessCommand>) -> (res: ProcessPlan)
    ensures
        commands@.len() > 0 ==> plan_view(res) == seq![commands_view(commands@)],
        commands@.len() == 0 ==> plan_view(res).len() == 0,
{
    let mut stages: Vec<Vec<ProcessCommand>> = Vec::new();
    if commands.len() > 0 {
        let ghost c = commands@;
        stages.push(commands);
        let res = ProcessPlan { stages };
        assert(plan_view(res) =~~= seq![commands_view(c)]);
        res
    } else {
        let res = ProcessPlan { stages };
        assert(plan_view(res).len() == 0);
        res
    }
}

/// Appends a copy of an argument.
pub fn push_arg(args: &mut Vec<String>, arg: &str)
    ensures
        views(final(args)@) == views(old(args)@).push(arg@),
{
    args.push(arg.to_owned());
    assert(views(args@) =~= views(old(args)@).push(arg@));
}

/// Appends an argument.
pub fn push_owned_arg(args: &mut Vec<String>, arg: String)
    ensures
        views(final(args)@) == views(old(args)@).push(arg@),
{
    let ghost v = arg@;
    args.push(arg);
    assert(views(args@) =~= views(old(args)@).push(v));
}

/// The names of the selected entries, in order.
pub open spec fn selected_names(entries: Seq<Entry>) -> Seq<Seq<char>>
    decreases entries.len(),
{
    if entries.len() == 0 {
        seq![]
    } else if entries.last().selected {
        selected_names(entries.drop_last()).push(entries.last().filename@)
    } else {
        selected_names(entries.drop_last())
    }
}

/// Appends the names of the selected entries.
pub fn push_selected_names(args: &mut Vec<String>, entries: &Vec<Entry>)
    ensures
        views(final(args)@) == views(old(args)@) + selected_names(entries@),
{
    let mut i: usize = 0;
    assert(entries@.take(0) == Seq::<Entry>::empty());
    while i < entries.len()
        invariant
            i <= entries.len(),
            views(args@) == views(old(args)@) + selected_names(entries@.take(i as int)),
        decreases entries.len() - i,
    {
        assert(entries@.take(i as int + 1).drop_last() == entries@.take(i as int));
        if entries[i].selected {
            let ghost before = views(args@);
            args.push(entries[i].filename.clone());
            assert(views(args@) == before.push(entries@[i as int].filename@));
        }
        i = i + 1;
    }
    assert(entries@.take(entries.len() as int) == entries@);
}

/// The first line of a command's output, if it has one.
pub fn first_line(output: &str) -> (res: Option<String>)
    ensures
        crate::text::lines_spec(output@).len() > 0 ==> (res matches Some(l) && l@ == crate::text::lines_spec(output@)[0]),
        crate::text::lines_spec(output@).len() == 0 ==> res is None,
{
    let ls = crate::text::lines(output);
    if ls.len() > 0 {
        Some(ls[0].clone())
    } else {
        None
    }
}


/// Whether the first `n` characters of `s` are one byte each.
pub open spec fn ascii_prefix(s: Seq<char>, n: int) -> bool {
    s.len() >= n && forall|k: int| 0 <= k < n ==> crate::text::utf8_width(#[trigger] s[k]) == 1
}

/// The entries of a status listing: the trimmed output divided at `sep`, each piece trimmed;
/// the pieces longer than `min` bytes are entries whose state is read from their first
/// character and whose name is the rest after `skip` characters, trimmed.
pub open spec fn listed_entries(output: Seq<char>, sep: char, min: nat, skip: int, state_of: spec_fn(Seq<char>) -> crate::select::State) -> Seq<(Seq<char>, crate::select::State)> {
    let pieces = split_spec(trim_spec(output), sep).map_values(|p: Seq<char>| trim_spec(p));
    kept_entries(pieces, min, skip, state_of)
}

/// The entries of the pieces longer than `min` bytes, in order.
pub open spec fn kept_entries(pieces: Seq<Seq<char>>, min: nat, skip: int, state_of: spec_fn(Seq<char>) -> crate::select::State) -> Seq<(Seq<char>, crate::select::State)>
    decreases pieces.len(),
{
    if pieces.len() == 0 {
        seq![]
    } else {
        let rest = kept_entries(pieces.drop_last(), min, skip, state_of);
        let p = pieces.last();
        if byte_len(p) > min {
            rest.push((trim_spec(p.skip(skip)), state_of(p.take(1))))
        } else {
            rest
        }
    }
}

/// Whether every piece of a listing that is an entry starts with `n` one-byte characters.
pub open spec fn listing_readable(output: Seq<char>, sep: char, min: nat, n: int) -> bool {
    let pieces = split_spec(trim_spec(output), sep).map_values(|p: Seq<char>| trim_spec(p));
    forall|k: int| 0 <= k < pieces.len() && byte_len(#[trigger] pieces[k]) > min ==> ascii_prefix(pieces[k], n)
}

} // verus!
