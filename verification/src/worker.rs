use vstd::prelude::*;

use crate::action::{aggregate_results, aggregate_spec, results_view, ActionKind};
use crate::async_process::ChildOutput;

verus! {

/// The outcome of several results, in order: a success when all succeeded, the outputs each
/// after a line feed.
pub fn aggregate_output(outputs: Vec<ChildOutput>) -> (res: ChildOutput)
    ensures
        (res.success, res.output@) == aggregate_spec(results_view(outputs@)),
{
    aggregate_results(outputs)
}

/// The tasks running for actions, and the results of those that finished, latest last.
pub struct Worker<T> {
    pub pending_tasks: Vec<(ActionKind, T)>,
    pub outputs: Vec<(ActionKind, ChildOutput)>,
}

/// Removing the element at `i` by moving the last one into its place keeps the other
/// elements.
pub proof fn lemma_swap_remove_multiset<A>(s: Seq<A>, i: int)
    requires
        0 <= i < s.len(),
    ensures
        s.update(i, s.last()).drop_last().to_multiset() == s.to_multiset().remove(s[i]),
{
    broadcast use vstd::multiset::group_multiset_axioms;
    let t = s.update(i, s.last());
    vstd::seq_lib::to_multiset_update(s, i, s.last());
    assert(t.drop_last() == t.remove(t.len() - 1));
    vstd::seq_lib::to_multiset_remove(t, t.len() - 1);
    assert(t[t.len() - 1] == s.last());
    vstd::seq_lib::to_multiset_contains(s, s[i]);
    assert(s.contains(s[i]));
    assert(t.drop_last().to_multiset() =~= s.to_multiset().remove(s[i]));
}

/// The results of the finished tasks among the first `n`, from the last down.
pub open spec fn finished<T>(pending: Seq<(ActionKind, T)>, ready: Seq<Option<ChildOutput>>, n: int) -> Seq<(ActionKind, ChildOutput)>
    decreases n,
{
    if n <= 0 {
        seq![]
    } else {
        (match ready[n - 1] {
            Some(r) => seq![(pending[n - 1].0, r)],
            None => seq![],
        }) + finished(pending, ready, n - 1)
    }
}

/// The tasks from index `i` on that have not finished, in order.
pub open spec fn unfinished<T>(pending: Seq<(ActionKind, T)>, ready: Seq<Option<ChildOutput>>, i: int) -> Seq<(ActionKind, T)>
    decreases pending.len() - i,
{
    if i < 0 || i >= pending.len() {
        seq![]
    } else {
        (if ready[i] is None {
            seq![pending[i]]
        } else {
            seq![]
        }) + unfinished(pending, ready, i + 1)
    }
}

impl<T> Worker<T> {
    /// No tasks and no results.
    pub fn new() -> (res: Worker<T>)
        ensures
            res.pending_tasks@.len() == 0,
            res.outputs@.len() == 0,
    {
        Worker { pending_tasks: Vec::new(), outputs: Vec::new() }
    }

    /// How many tasks run.
    pub fn task_count(&self) -> (res: usize)
        ensures
            res == self.pending_tasks@.len(),
    {
        self.pending_tasks.len()
    }

    /// Adds a task running for an action.
    pub fn send_task(&mut self, kind: ActionKind, task: T)
        ensures
            final(self).pending_tasks@ == old(self).pending_tasks@.push((kind, task)),
            final(self).outputs@ == old(self).outputs@,
    {
        self.pending_tasks.push((kind, task));
    }

    /// Drops every task; returns them, to be canceled.
    pub fn cancel_all_tasks(&mut self) -> (res: Vec<(ActionKind, T)>)
        ensures
            res@ == old(self).pending_tasks@,
            final(self).pending_tasks@.len() == 0,
            final(self).outputs@ == old(self).outputs@,
    {
        let mut tasks: Vec<(ActionKind, T)> = Vec::new();
        std::mem::swap(&mut tasks, &mut self.pending_tasks);
        tasks
    }

    /// Drops the tasks of an action; returns them, to be canceled. The other tasks stay.
    pub fn cancel_tasks_with_kind(&mut self, kind: ActionKind) -> (res: Vec<(ActionKind, T)>)
        ensures
            final(self).pending_tasks@.to_multiset().add(res@.to_multiset()) == old(self).pending_tasks@.to_multiset(),
            forall|k: int| 0 <= k < res@.len() ==> (#[trigger] res@[k]).0 == kind,
            forall|k: int| 0 <= k < final(self).pending_tasks@.len() ==> (#[trigger] final(self).pending_tasks@[k]).0 != kind,
            final(self).outputs@ == old(self).outputs@,
    {
        broadcast use vstd::multiset::group_multiset_axioms;
        let mut canceled: Vec<(ActionKind, T)> = Vec::new();
        let mut i = self.pending_tasks.len();
        proof {
            vstd::seq_lib::to_multiset_len(canceled@);
            assert(canceled@.to_multiset() =~= vstd::multiset::Multiset::empty());
            assert(self.pending_tasks@.to_multiset().add(canceled@.to_multiset()) =~= self.pending_tasks@.to_multiset());
        }
        while i > 0
            invariant
                i <= self.pending_tasks@.len(),
                self.pending_tasks@.to_multiset().add(canceled@.to_multiset()) == old(self).pending_tasks@.to_multiset(),
                forall|k: int| 0 <= k < canceled@.len() ==> (#[trigger] canceled@[k]).0 == kind,
                forall|k: int| i <= k < self.pending_tasks@.len() ==> (#[trigger] self.pending_tasks@[k]).0 != kind,
                self.outputs@ == old(self).outputs@,
            decreases i,
        {
            let j = i - 1;
            if self.pending_tasks[j].0 == kind {
                let ghost before = self.pending_tasks@;
                let ghost before_canceled = canceled@;
                let task = self.pending_tasks.swap_remove(j);
                canceled.push(task);
                proof {
                    lemma_swap_remove_multiset(before, j as int);
                    vstd::seq_lib::to_multiset_build(before_canceled, before[j as int]);
                    assert(canceled@ == before_canceled.push(before[j as int]));
                    assert(before.to_multiset().count(before[j as int]) > 0) by {
                        vstd::seq_lib::to_multiset_contains(before, before[j as int]);
                    }
                    assert(self.pending_tasks@.to_multiset().add(canceled@.to_multiset()) =~= before.to_multiset().add(
                        before_canceled.to_multiset(),
                    ));
                    assert forall|k: int| j <= k < self.pending_tasks@.len() implies (#[trigger] self.pending_tasks@[k]).0 != kind by {
                        if k == j {
                            assert(self.pending_tasks@[k] == before.last());
                        } else {
                            assert(self.pending_tasks@[k] == before[k]);
                        }
                    }
                }
            }
            i = j;
        }
        canceled
    }

    /// Takes the results of the tasks that finished: `ready` holds, for each running task,
    /// its result if it finished. Going from the last task down, each finished task leaves
    /// (the last task takes its place) and its result is added; the unfinished tasks stay.
    pub fn finish_tasks(&mut self, ready: Vec<Option<ChildOutput>>)
        requires
            ready@.len() == old(self).pending_tasks@.len(),
        ensures
            final(self).outputs@ == old(self).outputs@ + finished(old(self).pending_tasks@, ready@, ready@.len() as int),
            final(self).pending_tasks@.len() + finished(old(self).pending_tasks@, ready@, ready@.len() as int).len()
                == old(self).pending_tasks@.len(),
            final(self).pending_tasks@.to_multiset() == unfinished(old(self).pending_tasks@, ready@, 0).to_multiset(),
    {
        broadcast use vstd::multiset::group_multiset_axioms;
        let ghost p0 = self.pending_tasks@;
        let ghost r0 = ready@;
        let mut i = self.pending_tasks.len();
        let mut ready = ready;
        proof {
            assert(p0.take(p0.len() as int) == p0);
            assert(unfinished(p0, r0, p0.len() as int) == Seq::<(ActionKind, T)>::empty());
            vstd::seq_lib::to_multiset_len(Seq::<(ActionKind, T)>::empty());
            assert(Seq::<(ActionKind, T)>::empty().to_multiset() =~= vstd::multiset::Multiset::empty());
            assert(p0.to_multiset().add(vstd::multiset::Multiset::empty()) =~= p0.to_multiset());
        }
        while i > 0
            invariant
                i <= p0.len(),
                r0.len() == p0.len(),
                ready@ == r0.take(i as int),
                self.pending_tasks@.len() >= i,
                forall|k: int| 0 <= k < i ==> #[trigger] self.pending_tasks@[k] == p0[k],
                self.outputs@ + finished(p0, r0, i as int) == old(self).outputs@ + finished(p0, r0, p0.len() as int),
                self.pending_tasks@.len() + finished(p0, r0, p0.len() as int).len() == p0.len() + finished(p0, r0, i as int).len()
                    - (p0.len() - self.pending_tasks@.len()) + (p0.len() - self.pending_tasks@.len()),
                p0.len() - self.pending_tasks@.len() + finished(p0, r0, i as int).len() == finished(p0, r0, p0.len() as int).len(),
                self.pending_tasks@.to_multiset() == p0.take(i as int).to_multiset().add(unfinished(p0, r0, i as int).to_multiset()),
            decreases i,
        {
            let j = i - 1;
            let r = ready.pop();
            assert(r == Some(r0[j as int]));
            assert(ready@ == r0.take(j as int));
            proof {
                assert(p0.take(i as int) == p0.take(j as int).push(p0[j as int]));
                vstd::seq_lib::to_multiset_build(p0.take(j as int), p0[j as int]);
                vstd::seq_lib::lemma_multiset_commutative(
                    if r0[j as int] is None { seq![p0[j as int]] } else { Seq::<(ActionKind, T)>::empty() },
                    unfinished(p0, r0, i as int),
                );
                vstd::seq_lib::to_multiset_build(Seq::<(ActionKind, T)>::empty(), p0[j as int]);
                assert(seq![p0[j as int]] == Seq::<(ActionKind, T)>::empty().push(p0[j as int]));
                vstd::seq_lib::to_multiset_len(Seq::<(ActionKind, T)>::empty());
                assert(Seq::<(ActionKind, T)>::empty().to_multiset() =~= vstd::multiset::Multiset::empty());
            }
            match r {
                Some(Some(output)) => {
                    let ghost before = self.pending_tasks@;
                    let (kind, _task) = self.pending_tasks.swap_remove(j);
                    proof {
                        lemma_swap_remove_multiset(before, j as int);
                        assert(before[j as int] == p0[j as int]);
                        assert(self.pending_tasks@.to_multiset() =~= p0.take(j as int).to_multiset().add(
                            unfinished(p0, r0, j as int).to_multiset(),
                        ));
                    }
                    assert(kind == p0[j as int].0);
                    let ghost outs = self.outputs@;
                    self.outputs.push((kind, output));
                    assert(finished(p0, r0, i as int) == seq![(p0[j as int].0, output)] + finished(p0, r0, j as int));
                    assert(self.outputs@ + finished(p0, r0, j as int) == outs + finished(p0, r0, i as int));
                    assert forall|k: int| 0 <= k < j implies #[trigger] self.pending_tasks@[k] == p0[k] by {
                        assert(self.pending_tasks@[k] == before[k]);
                    }
                },
                _ => {
                    assert(finished(p0, r0, i as int) == finished(p0, r0, j as int));
                    assert(self.pending_tasks@.to_multiset() =~= p0.take(j as int).to_multiset().add(
                        unfinished(p0, r0, j as int).to_multiset(),
                    ));
                },
            }
            i = j;
        }
        proof {
            assert(p0.take(0) == Seq::<(ActionKind, T)>::empty());
            vstd::seq_lib::to_multiset_len(Seq::<(ActionKind, T)>::empty());
            assert(Seq::<(ActionKind, T)>::empty().to_multiset() =~= vstd::multiset::Multiset::empty());
            assert(self.pending_tasks@.to_multiset() =~= unfinished(p0, r0, 0).to_multiset());
        }
    }

    /// Takes the latest result, if any.
    pub fn receive_result(&mut self) -> (res: Option<(ActionKind, ChildOutput)>)
        ensures
            old(self).outputs@.len() == 0 ==> res is None && final(self).outputs@ == old(self).outputs@,
            old(self).outputs@.len() > 0 ==> res == Some(old(self).outputs@.last()) && final(self).outputs@ == old(
                self,
            ).outputs@.drop_last(),
            final(self).pending_tasks@ == old(self).pending_tasks@,
    {
        let len = self.outputs.len();
        if len > 0 {
            Some(self.outputs.remove(len - 1))
        } else {
            None
        }
    }
}

} // verus!
