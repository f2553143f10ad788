use vstd::prelude::*;

use crate::action::{ActionKind, ActionResult};
use crate::async_process::ChildOutput;
use crate::custom_actions::CustomAction;
use crate::worker::{finished, unfinished, Worker};

verus! {

/// An action that runs, with the kind it is of.
pub struct ActionFuture<T> {
    pub kind: ActionKind,
    pub task: T,
}

/// The actions of the text interface: the running ones, at most one of each kind, and the
/// latest result of each kind.
pub struct Application<V, T> {
    pub version_control: V,
    pub custom_actions: Vec<CustomAction>,
    pub pending_actions: Worker<T>,
    pub action_results: Vec<(ActionKind, ActionResult)>,
}

/// The latest result of a kind among results kept in order, as plain values.
pub open spec fn cached(results: Seq<(ActionKind, ActionResult)>, kind: ActionKind) -> Option<(bool, Seq<char>)>
    decreases results.len(),
{
    if results.len() == 0 {
        None
    } else if results.last().0 == kind {
        Some((results.last().1.success, results.last().1.output@))
    } else {
        cached(results.drop_last(), kind)
    }
}

/// The result shown for a kind: its latest one, or an empty success before any.
pub open spec fn shown_result(results: Seq<(ActionKind, ActionResult)>, kind: ActionKind) -> (bool, Seq<char>) {
    match cached(results, kind) {
        Some(r) => r,
        None => (true, Seq::empty()),
    }
}

/// Whether an action of the kind runs.
pub open spec fn runs<T>(pending: Seq<(ActionKind, T)>, kind: ActionKind) -> bool {
    exists|i: int| 0 <= i < pending.len() && (#[trigger] pending[i]).0 == kind
}

/// No two running actions are of one kind.
pub open spec fn kinds_unique<T>(pending: Seq<(ActionKind, T)>) -> bool {
    forall|i: int, j: int| 0 <= i < j < pending.len() ==> (#[trigger] pending[i]).0 != (#[trigger] pending[j]).0
}

/// The running actions after asking for one: unchanged when one of its kind runs, else with
/// it added.
pub open spec fn after_run<T>(pending: Seq<(ActionKind, T)>, kind: ActionKind, task: T) -> Seq<(ActionKind, T)> {
    if runs(pending, kind) {
        pending
    } else {
        pending.push((kind, task))
    }
}

/// Asking for actions never makes two of one kind run.
pub proof fn lemma_run_keeps_kinds_unique<T>(pending: Seq<(ActionKind, T)>, kind: ActionKind, task: T)
    requires
        kinds_unique(pending),
    ensures
        kinds_unique(after_run(pending, kind, task)),
{
    if !runs(pending, kind) {
        let p = pending.push((kind, task));
        assert forall|i: int, j: int| 0 <= i < j < p.len() implies (#[trigger] p[i]).0 != (#[trigger] p[j]).0 by {
            if j == pending.len() {
                assert(pending[i] == p[i]);
                if p[i].0 == kind {
                    assert(runs(pending, kind));
                }
            } else {
                assert(pending[i] == p[i] && pending[j] == p[j]);
            }
        }
    }
}

/// Storing a result of a kind, then reading the result of a kind, gives the stored one for
/// that kind and the earlier one for any other.
pub proof fn lemma_read_after_store(results: Seq<(ActionKind, ActionResult)>, kind: ActionKind, result: ActionResult, other: ActionKind)
    ensures
        shown_result(results.push((kind, result)), kind) == (result.success, result.output@),
        other != kind ==> shown_result(results.push((kind, result)), other) == shown_result(results, other),
{
    assert(results.push((kind, result)).drop_last() == results);
}

/// Dropping a result of another kind leaves the latest result of `kind` as it was.
proof fn lemma_cached_remove(results: Seq<(ActionKind, ActionResult)>, i: int, kind: ActionKind)
    requires
        0 <= i < results.len(),
        results[i].0 != kind,
    ensures
        cached(results.remove(i), kind) == cached(results, kind),
    decreases results.len(),
{
    if i == results.len() - 1 {
        assert(results.remove(i) == results.drop_last());
    } else {
        assert(results.remove(i).last() == results.last());
        assert(results.remove(i).drop_last() == results.drop_last().remove(i));
        if results.last().0 != kind {
            lemma_cached_remove(results.drop_last(), i, kind);
        }
    }
}

/// The tasks that have not finished are among the tasks, as many times at most.
proof fn lemma_unfinished_within<T>(pending: Seq<(ActionKind, T)>, ready: Seq<Option<ChildOutput>>, i: int)
    requires
        0 <= i <= pending.len(),
    ensures
        unfinished(pending, ready, i).to_multiset().subset_of(pending.skip(i).to_multiset()),
    decreases pending.len() - i,
{
    broadcast use vstd::multiset::group_multiset_axioms;
    let empty = Seq::<(ActionKind, T)>::empty();
    vstd::seq_lib::to_multiset_len(empty);
    assert(empty.to_multiset() =~= vstd::multiset::Multiset::empty());
    if i == pending.len() {
        assert(unfinished(pending, ready, i) == empty);
        assert(pending.skip(i) == empty);
    } else {
        lemma_unfinished_within(pending, ready, i + 1);
        let rest = unfinished(pending, ready, i + 1);
        let one = seq![pending[i]];
        let first = if ready[i] is None { one } else { empty };
        assert(unfinished(pending, ready, i) == first + rest);
        vstd::seq_lib::lemma_multiset_commutative(first, rest);
        assert(pending.skip(i) == one + pending.skip(i + 1));
        vstd::seq_lib::lemma_multiset_commutative(one, pending.skip(i + 1));
        vstd::seq_lib::to_multiset_build(empty, pending[i]);
        assert(one == empty.push(pending[i]));
        assert forall|x: (ActionKind, T)|
            #[trigger] unfinished(pending, ready, i).to_multiset().count(x) <= pending.skip(i).to_multiset().count(x) by {
            assert(first.to_multiset().count(x) <= one.to_multiset().count(x));
        }
    }
}

/// Polling never makes two running actions of one kind: the actions left are some of those
/// that ran (`remaining` holds what `Worker::finish_tasks` leaves).
pub proof fn lemma_poll_keeps_kinds_unique<T>(
    pending: Seq<(ActionKind, T)>,
    ready: Seq<Option<ChildOutput>>,
    remaining: Seq<(ActionKind, T)>,
)
    requires
        kinds_unique(pending),
        remaining.to_multiset() == unfinished(pending, ready, 0).to_multiset(),
    ensures
        kinds_unique(remaining),
{
    broadcast use vstd::multiset::group_multiset_axioms;
    lemma_unfinished_within(pending, ready, 0);
    assert(pending.skip(0) == pending);
    assert(pending.no_duplicates()) by {
        assert forall|i: int, j: int| 0 <= i < pending.len() && 0 <= j < pending.len() && i != j implies pending[i]
            != pending[j] by {
            if i < j {
                assert(pending[i].0 != pending[j].0);
            } else {
                assert(pending[j].0 != pending[i].0);
            }
        }
    }
    pending.lemma_multiset_has_no_duplicates();
    assert forall|x: (ActionKind, T)| remaining.to_multiset().contains(x) implies remaining.to_multiset().count(x) == 1 by {
        vstd::seq_lib::to_multiset_contains(pending, x);
        assert(pending.to_multiset().count(x) >= remaining.to_multiset().count(x));
    }
    remaining.lemma_multiset_has_no_duplicates_conv();
    assert forall|i: int, j: int| 0 <= i < j < remaining.len() implies (#[trigger] remaining[i]).0 != (
    #[trigger] remaining[j]).0 by {
        vstd::seq_lib::to_multiset_contains(remaining, remaining[i]);
        vstd::seq_lib::to_multiset_contains(remaining, remaining[j]);
        assert(remaining.contains(remaining[i]));
        assert(remaining.contains(remaining[j]));
        vstd::seq_lib::to_multiset_contains(pending, remaining[i]);
        vstd::seq_lib::to_multiset_contains(pending, remaining[j]);
        let a = choose|a: int| 0 <= a < pending.len() && pending[a] == remaining[i];
        let b = choose|b: int| 0 <= b < pending.len() && pending[b] == remaining[j];
        if remaining[i].0 == remaining[j].0 {
            assert(remaining[i] != remaining[j]);
            if a < b {
                assert(pending[a].0 != pending[b].0);
            } else if b < a {
                assert(pending[b].0 != pending[a].0);
            }
        }
    }
}

impl<V, T> Application<V, T> {
    /// No action runs and no result is kept yet.
    pub fn new(version_control: V, custom_actions: Vec<CustomAction>) -> (res: Self)
        ensures
            res.version_control == version_control,
            res.custom_actions == custom_actions,
            res.pending_actions.pending_tasks@.len() == 0,
            res.pending_actions.outputs@.len() == 0,
            res.action_results@.len() == 0,
    {
        Application { version_control, custom_actions, pending_actions: Worker::new(), action_results: Vec::new() }
    }

    /// The result shown for a kind: its latest one, or an empty success before any.
    pub fn get_cached_action_result(&self, kind: ActionKind) -> (res: ActionResult)
        ensures
            (res.success, res.output@) == shown_result(self.action_results@, kind),
    {
        let mut i = self.action_results.len();
        assert(self.action_results@.take(i as int) == self.action_results@);
        while i > 0
            invariant
                i <= self.action_results@.len(),
                cached(self.action_results@, kind) == cached(self.action_results@.take(i as int), kind),
            decreases i,
        {
            let j = i - 1;
            assert(self.action_results@.take(i as int).drop_last() == self.action_results@.take(j as int));
            if self.action_results[j].0 == kind {
                let r = &self.action_results[j].1;
                return ChildOutput { success: r.success, output: r.output.clone() };
            }
            i = j;
        }
        ChildOutput { success: true, output: String::new() }
    }

    /// Keeps a result as the latest of its kind.
    pub fn set_cached_action_result(&mut self, kind: ActionKind, result: ActionResult)
        ensures
            forall|k: ActionKind| #[trigger] cached(final(self).action_results@, k) == if k == kind {
                Some((result.success, result.output@))
            } else {
                cached(old(self).action_results@, k)
            },
            final(self).pending_actions == old(self).pending_actions,
    {
        let mut i: usize = 0;
        while i < self.action_results.len()
            invariant
                i <= self.action_results@.len(),
                self.action_results@ == old(self).action_results@,
                forall|j: int| 0 <= j < i ==> (#[trigger] self.action_results@[j]).0 != kind,
            decreases self.action_results@.len() - i,
        {
            if self.action_results[i].0 == kind {
                break;
            }
            i += 1;
        }
        if i < self.action_results.len() && self.action_results[i].0 == kind {
            let ghost before = self.action_results@;
            self.action_results.remove(i);
            proof {
                assert forall|k: ActionKind| k != kind implies cached(self.action_results@, k) == cached(before, k) by {
                    lemma_cached_remove(before, i as int, k);
                }
            }
        }
        let ghost kept = self.action_results@;
        self.action_results.push((kind, result));
        assert(self.action_results@.drop_last() == kept);
    }

    /// Runs an action unless one of its kind already runs.
    pub fn run_action(&mut self, action: ActionFuture<T>)
        ensures
            final(self).pending_actions.pending_tasks@ == after_run(
                old(self).pending_actions.pending_tasks@,
                action.kind,
                action.task,
            ),
            final(self).pending_actions.outputs@ == old(self).pending_actions.outputs@,
            final(self).action_results == old(self).action_results,
    {
        if self.has_pending_action_of_type(action.kind) {
            return;
        }
        self.pending_actions.send_task(action.kind, action.task);
    }

    /// Whether an action of the kind runs.
    pub fn has_pending_action_of_type(&self, kind: ActionKind) -> (res: bool)
        ensures
            res == runs(self.pending_actions.pending_tasks@, kind),
    {
        let mut i: usize = 0;
        while i < self.pending_actions.pending_tasks.len()
            invariant
                i <= self.pending_actions.pending_tasks@.len(),
                forall|j: int| 0 <= j < i ==> (#[trigger] self.pending_actions.pending_tasks@[j]).0 != kind,
            decreases self.pending_actions.pending_tasks@.len() - i,
        {
            if self.pending_actions.pending_tasks[i].0 == kind {
                return true;
            }
            i += 1;
        }
        false
    }

    /// Takes the results of the actions that finished (`ready` holds, for each running action,
    /// its result if it finished) and keeps each as the latest of its kind; tells whether an
    /// action of `kind` was among them.
    pub fn poll_and_check_action(&mut self, kind: ActionKind, ready: Vec<Option<ActionResult>>) -> (res: bool)
        requires
            ready@.len() == old(self).pending_actions.pending_tasks@.len(),
            old(self).pending_actions.outputs@.len() == 0,
        ensures
            ({
                let done = finished(old(self).pending_actions.pending_tasks@, ready@, ready@.len() as int);
                &&& res == exists|j: int| 0 <= j < done.len() && (#[trigger] done[j]).0 == kind
                &&& forall|k: ActionKind| #[trigger] cached(final(self).action_results@, k) == match cached(done, k) {
                    Some(r) => Some(r),
                    None => cached(old(self).action_results@, k),
                }
            }),
            final(self).pending_actions.outputs@.len() == 0,
            final(self).pending_actions.pending_tasks@.len() + finished(
                old(self).pending_actions.pending_tasks@,
                ready@,
                ready@.len() as int,
            ).len() == old(self).pending_actions.pending_tasks@.len(),
    {
        let ghost done = finished(self.pending_actions.pending_tasks@, ready@, ready@.len() as int);
        self.pending_actions.finish_tasks(ready);
        assert(self.pending_actions.outputs@ =~= done);
        let mut outputs: Vec<(ActionKind, ChildOutput)> = Vec::new();
        std::mem::swap(&mut outputs, &mut self.pending_actions.outputs);
        let ghost p1 = self.pending_actions.pending_tasks@;
        let ghost r0 = self.action_results@;
        let mut just_finished = false;
        let mut j: usize = 0;
        while j < outputs.len()
            invariant
                j <= outputs@.len(),
                outputs@ == done,
                self.pending_actions.outputs@.len() == 0,
                self.pending_actions.pending_tasks@ == p1,
                just_finished == exists|l: int| 0 <= l < j && (#[trigger] done[l]).0 == kind,
                forall|k: ActionKind| #[trigger] cached(self.action_results@, k) == match cached(done.take(j as int), k) {
                    Some(r) => Some(r),
                    None => cached(r0, k),
                },
            decreases outputs@.len() - j,
        {
            let (k, result) = (outputs[j].0, ChildOutput { success: outputs[j].1.success, output: outputs[j].1.output.clone() });
            assert(done.take(j as int + 1).drop_last() == done.take(j as int));
            if k == kind {
                just_finished = true;
            }
            self.set_cached_action_result(k, result);
            j += 1;
        }
        assert(done.take(done.len() as int) == done);
        just_finished
    }
}

} // verus!
