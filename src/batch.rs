//! A bulk operation over an ordered collection of items, each handled in two
//! subsystem steps: a preparing step, then a committing step that is only
//! attempted when the preparing step of the same item succeeded.
//!
//! Importing a discovery result is such a batch (extract the entry's
//! configuration, then import it), and so is exporting pools (quiesce the
//! pool's datasets, then export it). A failure of one item never stops the
//! batch: every item is attempted, and every failure is reported, paired
//! with the item's position, in the order of the items.
use vstd::prelude::*;

use crate::error::ZfsError;

verus! {

/// What happened to one item of a batch.
#[derive(Clone, Copy, Debug, PartialEq, Eq, Structural)]
pub enum ItemOutcome {
    /// The preparing step failed; the committing step was not attempted.
    PrepareFailed(ZfsError),
    /// The preparing step succeeded and the committing step failed.
    CommitFailed(ZfsError),
    /// Both steps succeeded.
    Completed,
}

/// The step that the caller performs next.
#[derive(Clone, Copy, Debug, PartialEq, Eq, Structural)]
pub enum BatchAction {
    /// Run the preparing step of the item at this position.
    Prepare(usize),
    /// Run the committing step of the item at this position.
    Commit(usize),
    /// Every item has been handled.
    Finished,
}

/// The error of an item that failed, or `None` for one that completed.
pub open spec fn outcome_error(o: ItemOutcome) -> Option<ZfsError> {
    match o {
        ItemOutcome::PrepareFailed(e) => Some(e),
        ItemOutcome::CommitFailed(e) => Some(e),
        ItemOutcome::Completed => None,
    }
}

/// Whether the item failed at either step.
pub open spec fn is_failure(o: ItemOutcome) -> bool {
    !(o is Completed)
}

/// The failure list of a batch whose items had these outcomes: one entry
/// per failed item, holding its position and its error, in item order.
pub open spec fn failures_of(outs: Seq<ItemOutcome>) -> Seq<(usize, ZfsError)>
    decreases outs.len(),
{
    if outs.len() == 0 {
        seq![]
    } else {
        let earlier = failures_of(outs.drop_last());
        match outcome_error(outs.last()) {
            Some(e) => earlier.push(((outs.len() - 1) as usize, e)),
            None => earlier,
        }
    }
}

/// The outcome of a whole batch: success exactly when no item failed,
/// otherwise the complete failure list.
pub open spec fn batch_result(outs: Seq<ItemOutcome>) -> Result<(), Seq<(usize, ZfsError)>> {
    if failures_of(outs).len() == 0 {
        Ok(())
    } else {
        Err(failures_of(outs))
    }
}

/// Every failed item, and only a failed item, appears in the failure list,
/// once, with its own position and its own error, in item order; the list
/// is exactly as long as the number of failed items.
pub proof fn lemma_failures_report_every_failure(outs: Seq<ItemOutcome>)
    requires
        outs.len() <= usize::MAX,
    ensures
        failures_of(outs).len() == outs.filter(|o: ItemOutcome| is_failure(o)).len(),
        forall|j: int|
            0 <= j < failures_of(outs).len() ==> {
                &&& (#[trigger] failures_of(outs)[j]).0 < outs.len()
                &&& outcome_error(outs[failures_of(outs)[j].0 as int]) == Some(
                    failures_of(outs)[j].1,
                )
            },
        forall|j: int, k: int|
            0 <= j < k < failures_of(outs).len() ==> (#[trigger] failures_of(outs)[j]).0
                < (#[trigger] failures_of(outs)[k]).0,
        forall|i: int|
            0 <= i < outs.len() && is_failure(#[trigger] outs[i]) ==> exists|j: int|
                0 <= j < failures_of(outs).len() && failures_of(outs)[j].0 == i,
    decreases outs.len(),
{
    reveal(Seq::filter);
    if outs.len() > 0 {
        let prev = outs.drop_last();
        lemma_failures_report_every_failure(prev);
        let f = failures_of(outs);
        let fp = failures_of(prev);
        let pred = |o: ItemOutcome| is_failure(o);
        assert(outs.filter(pred) == if pred(outs.last()) {
            prev.filter(pred).push(outs.last())
        } else {
            prev.filter(pred)
        });
        assert forall|i: int| 0 <= i < outs.len() && is_failure(#[trigger] outs[i]) implies exists|
            j: int,
        | 0 <= j < f.len() && f[j].0 == i by {
            if i < outs.len() - 1 {
                assert(prev[i] == outs[i]);
                let j = choose|j: int| 0 <= j < fp.len() && fp[j].0 == i;
                assert(f[j] == fp[j]);
            } else {
                assert(f[f.len() - 1].0 == i);
            }
        }
        assert forall|j: int| 0 <= j < f.len() implies {
            &&& (#[trigger] f[j]).0 < outs.len()
            &&& outcome_error(outs[f[j].0 as int]) == Some(f[j].1)
        } by {
            if j < fp.len() {
                assert(f[j] == fp[j]);
                assert(prev[fp[j].0 as int] == outs[fp[j].0 as int]);
            }
        }
    }
}

/// A batch over no items asks for no subsystem step and succeeds.
pub proof fn lemma_empty_batch_succeeds(run: BatchRun)
    requires
        run.wf(),
        run.size() == 0,
    ensures
        run.pending() == BatchAction::Finished,
        batch_result(run.history()) == Ok::<(), Seq<(usize, ZfsError)>>(()),
{
}

/// The state of a batch in progress.
pub struct BatchRun {
    len: usize,
    pos: usize,
    committing: bool,
    failures: Vec<(usize, ZfsError)>,
    history: Ghost<Seq<ItemOutcome>>,
}

impl BatchRun {
    /// The number of items in the batch.
    pub closed spec fn size(&self) -> nat {
        self.len as nat
    }

    /// The outcomes of the items handled so far, in item order.
    pub closed spec fn history(&self) -> Seq<ItemOutcome> {
        self.history@
    }

    /// Whether the preparing step of the current item succeeded and its
    /// committing step is still to be run.
    pub closed spec fn awaiting_commit(&self) -> bool {
        self.committing
    }

    pub closed spec fn wf(&self) -> bool {
        &&& self.pos as nat == self.history@.len()
        &&& self.pos <= self.len
        &&& self.committing ==> self.pos < self.len
        &&& self.failures@ == failures_of(self.history@)
    }

    /// The step that the batch asks for in this state.
    pub open spec fn pending(&self) -> BatchAction {
        if self.history().len() >= self.size() {
            BatchAction::Finished
        } else if self.awaiting_commit() {
            BatchAction::Commit(self.history().len() as usize)
        } else {
            BatchAction::Prepare(self.history().len() as usize)
        }
    }

    /// Starts a batch over `len` items; nothing has been attempted yet.
    pub fn new(len: usize) -> (r: BatchRun)
        ensures
            r.wf(),
            r.size() == len,
            r.history() == Seq::<ItemOutcome>::empty(),
            !r.awaiting_commit(),
            r.pending() == (if len == 0 {
                BatchAction::Finished
            } else {
                BatchAction::Prepare(0)
            }),
    {
        BatchRun { len, pos: 0, committing: false, failures: Vec::new(), history: Ghost(Seq::empty()) }
    }

    /// The step that the caller performs next.
    pub fn next_action(&self) -> (a: BatchAction)
        requires
            self.wf(),
        ensures
            a == self.pending(),
    {
        if self.pos >= self.len {
            BatchAction::Finished
        } else if self.committing {
            BatchAction::Commit(self.pos)
        } else {
            BatchAction::Prepare(self.pos)
        }
    }

    /// Records the result of the preparing step of the current item. On a
    /// failure the item is done, its committing step is skipped, and the
    /// batch moves on to the next item.
    pub fn prepared(&mut self, r: Result<(), ZfsError>)
        requires
            old(self).wf(),
            old(self).pending() is Prepare,
        ensures
            final(self).wf(),
            final(self).size() == old(self).size(),
            match r {
                Ok(()) => {
                    &&& final(self).history() == old(self).history()
                    &&& final(self).awaiting_commit()
                    &&& final(self).pending() == BatchAction::Commit(
                        old(self).history().len() as usize,
                    )
                },
                Err(e) => {
                    &&& final(self).history() == old(self).history().push(
                        ItemOutcome::PrepareFailed(e),
                    )
                    &&& !final(self).awaiting_commit()
                    &&& final(self).pending() != BatchAction::Commit(
                        old(self).history().len() as usize,
                    )
                },
            },
    {
        match r {
            Ok(()) => {
                self.committing = true;
            },
            Err(e) => {
                self.record(ItemOutcome::PrepareFailed(e));
            },
        }
    }

    /// Records the result of the committing step of the current item; the
    /// item is then done and the batch moves on to the next one.
    pub fn committed(&mut self, r: Result<(), ZfsError>)
        requires
            old(self).wf(),
            old(self).pending() is Commit,
        ensures
            final(self).wf(),
            final(self).size() == old(self).size(),
            !final(self).awaiting_commit(),
            final(self).history() == old(self).history().push(
                match r {
                    Ok(()) => ItemOutcome::Completed,
                    Err(e) => ItemOutcome::CommitFailed(e),
                },
            ),
    {
        self.committing = false;
        match r {
            Ok(()) => self.record(ItemOutcome::Completed),
            Err(e) => self.record(ItemOutcome::CommitFailed(e)),
        }
    }

    /// Closes the current item with outcome `o`.
    fn record(&mut self, o: ItemOutcome)
        requires
            old(self).pos as nat == old(self).history@.len(),
            old(self).pos < old(self).len,
            old(self).failures@ == failures_of(old(self).history@),
        ensures
            final(self).len == old(self).len,
            final(self).committing == old(self).committing,
            final(self).pos == old(self).pos + 1,
            final(self).history@ == old(self).history@.push(o),
            final(self).failures@ == failures_of(final(self).history@),
    {
        let ghost h = self.history@.push(o);
        assert(h.drop_last() =~= self.history@);
        match o {
            ItemOutcome::PrepareFailed(e) => self.failures.push((self.pos, e)),
            ItemOutcome::CommitFailed(e) => self.failures.push((self.pos, e)),
            ItemOutcome::Completed => {},
        }
        self.pos = self.pos + 1;
        self.history = Ghost(h);
    }

    /// Ends the batch: success when no item failed, otherwise every failure
    /// with the position of its item, in item order.
    pub fn finish(self) -> (r: Result<(), Vec<(usize, ZfsError)>>)
        requires
            self.wf(),
            self.pending() is Finished,
        ensures
            self.history().len() == self.size(),
            match r {
                Ok(()) => batch_result(self.history()) == Ok::<(), Seq<(usize, ZfsError)>>(()),
                Err(v) => batch_result(self.history()) == Err::<(), Seq<(usize, ZfsError)>>(v@),
            },
    {
        if self.failures.len() == 0 {
            Ok(())
        } else {
            Err(self.failures)
        }
    }
}

} // verus!
