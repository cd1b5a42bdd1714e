//! The bookkeeping of a probing run.
//!
//! Workers share one ledger. Each takes the next file from it, probes the
//! file, and records that the result is in. The ledger hands out every file
//! once, in order, and accepts one result per file that it handed out, so a
//! complete run holds exactly one result for each file, however the workers
//! take turns.

use vstd::prelude::*;

verus! {

/// How many entries of `done` are set.
pub open spec fn count_set(done: Seq<bool>) -> nat
    decreases done.len(),
{
    if done.len() == 0 {
        0
    } else if done.last() {
        count_set(done.drop_last()) + 1
    } else {
        count_set(done.drop_last())
    }
}

/// No more entries are set than there are, and all are set exactly when
/// their count is the length.
pub proof fn lemma_count_set_bounds(done: Seq<bool>)
    ensures
        count_set(done) <= done.len(),
        count_set(done) == done.len() <==> (forall|i: int| 0 <= i < done.len() ==> done[i]),
    decreases done.len(),
{
    if done.len() > 0 {
        let head = done.drop_last();
        lemma_count_set_bounds(head);
        if count_set(done) == done.len() {
            assert forall|i: int| 0 <= i < done.len() implies done[i] by {
                if i < head.len() {
                    assert(head[i] == done[i]);
                }
            }
        }
        if forall|i: int| 0 <= i < done.len() ==> done[i] {
            assert forall|i: int| 0 <= i < head.len() implies head[i] by {
                assert(head[i] == done[i]);
            }
        }
    }
}

/// Setting an entry that was not set raises the count by one.
pub proof fn lemma_count_set_update(done: Seq<bool>, index: int)
    requires
        0 <= index < done.len(),
        !done[index],
    ensures
        count_set(done.update(index, true)) == count_set(done) + 1,
    decreases done.len(),
{
    let after = done.update(index, true);
    if index == done.len() - 1 {
        assert(after.drop_last() =~= done.drop_last());
    } else {
        lemma_count_set_update(done.drop_last(), index);
        assert(after.drop_last() =~= done.drop_last().update(index, true));
    }
}

/// Entries that are not set do not count: where none is set from `from` on,
/// the count is that of the entries before `from`.
pub proof fn lemma_count_beyond(done: Seq<bool>, from: int)
    requires
        0 <= from <= done.len(),
        forall|i: int| from <= i < done.len() ==> !done[i],
    ensures
        count_set(done) == count_set(done.take(from)),
    decreases done.len() - from,
{
    if from == done.len() {
        assert(done.take(from) =~= done);
    } else {
        let head = done.drop_last();
        lemma_count_beyond(head, from);
        assert(head.take(from) =~= done.take(from));
    }
}

/// What a ledger holds: the number of files, how many of them have been
/// handed out (those at the positions below `handed`), and for each file
/// whether its result is in.
pub struct LedgerView {
    pub total: nat,
    pub handed: nat,
    pub done: Seq<bool>,
}

/// What a worker does to the ledger.
pub enum PoolStep {
    /// It asks for the next file.
    Take,
    /// It reports the result for a file.
    Record(usize),
}

impl LedgerView {
    /// The ledger at the start of a run over `total` files.
    pub open spec fn fresh(total: nat) -> LedgerView {
        LedgerView { total, handed: 0, done: Seq::new(total, |i: int| false) }
    }

    /// The ledger is consistent: it has an entry for each file, has handed
    /// out no more files than there are, and holds results only for files
    /// that it handed out.
    pub open spec fn wf(self) -> bool {
        &&& self.done.len() == self.total
        &&& self.handed <= self.total
        &&& forall|i: int| self.handed <= i < self.done.len() ==> !self.done[i]
    }

    /// The file that the next take hands out, if one is left.
    pub open spec fn next_file(self) -> Option<usize> {
        if self.handed < self.total {
            Some(self.handed as usize)
        } else {
            None
        }
    }

    /// The ledger after a take.
    pub open spec fn after_take(self) -> LedgerView {
        if self.handed < self.total {
            LedgerView { handed: self.handed + 1, ..self }
        } else {
            self
        }
    }

    /// Whether a result for `file` is accepted: the file was handed out and
    /// has no result yet.
    pub open spec fn accepts(self, file: usize) -> bool {
        file < self.handed && !self.done[file as int]
    }

    /// The ledger after a result for `file` was reported.
    pub open spec fn after_record(self, file: usize) -> LedgerView {
        if self.accepts(file) {
            LedgerView { done: self.done.update(file as int, true), ..self }
        } else {
            self
        }
    }

    /// The ledger after one step of a worker.
    pub open spec fn after(self, step: PoolStep) -> LedgerView {
        match step {
            PoolStep::Take => self.after_take(),
            PoolStep::Record(file) => self.after_record(file),
        }
    }

    /// The ledger after a sequence of steps, whoever made them.
    pub open spec fn run(self, steps: Seq<PoolStep>) -> LedgerView
        decreases steps.len(),
    {
        if steps.len() == 0 {
            self
        } else {
            self.run(steps.drop_last()).after(steps.last())
        }
    }

    /// The files that the takes among `steps` handed out, in order.
    pub open spec fn handouts(self, steps: Seq<PoolStep>) -> Seq<usize>
        decreases steps.len(),
    {
        if steps.len() == 0 {
            Seq::empty()
        } else {
            let before = self.run(steps.drop_last());
            match steps.last() {
                PoolStep::Take => match before.next_file() {
                    Some(file) => self.handouts(steps.drop_last()).push(file),
                    None => self.handouts(steps.drop_last()),
                },
                PoolStep::Record(_) => self.handouts(steps.drop_last()),
            }
        }
    }

    /// How many results were accepted among `steps`.
    pub open spec fn accepted(self, steps: Seq<PoolStep>) -> nat
        decreases steps.len(),
    {
        if steps.len() == 0 {
            0
        } else {
            let before = self.run(steps.drop_last());
            match steps.last() {
                PoolStep::Record(file) if before.accepts(file) => self.accepted(steps.drop_last())
                    + 1,
                _ => self.accepted(steps.drop_last()),
            }
        }
    }

    /// Whether the result of every file is in.
    pub open spec fn complete(self) -> bool {
        forall|i: int| 0 <= i < self.total ==> self.done[i]
    }

    /// No more results are in than files were handed out.
    pub proof fn lemma_results_within_handed(self)
        requires
            self.wf(),
        ensures
            count_set(self.done) <= self.handed,
    {
        lemma_count_beyond(self.done, self.handed as int);
        lemma_count_set_bounds(self.done.take(self.handed as int));
    }

    /// In a complete run every file was handed out, and there are exactly as
    /// many results as files.
    pub proof fn lemma_complete_covers_all(self)
        requires
            self.wf(),
            self.complete(),
        ensures
            self.handed == self.total,
            count_set(self.done) == self.total,
    {
        lemma_count_set_bounds(self.done);
        if self.handed < self.total {
            assert(self.done[self.handed as int]);
        }
    }
}

/// Every run of a probing pool, whatever the number of workers and however
/// their steps interleave, processes each file at most once and keeps one
/// result per file at most: the files handed out are the first ones of the
/// list, each once and in order; the results that are in are exactly those
/// that were accepted, and no more than files were handed out. A run that
/// is complete has handed out every file and holds exactly one result for
/// each.
pub proof fn lemma_pool_run(total: nat, steps: Seq<PoolStep>)
    requires
        total <= usize::MAX,
    ensures
        LedgerView::fresh(total).run(steps).wf(),
        LedgerView::fresh(total).run(steps).total == total,
        LedgerView::fresh(total).handouts(steps) == Seq::new(
            LedgerView::fresh(total).run(steps).handed,
            |i: int| i as usize,
        ),
        count_set(LedgerView::fresh(total).run(steps).done) == LedgerView::fresh(total).accepted(
            steps,
        ),
        LedgerView::fresh(total).accepted(steps) <= LedgerView::fresh(total).run(steps).handed
            <= total,
        LedgerView::fresh(total).run(steps).complete() ==> LedgerView::fresh(total).handouts(
            steps,
        ).len() == total && LedgerView::fresh(total).accepted(steps) == total,
    decreases steps.len(),
{
    let start = LedgerView::fresh(total);
    let end = start.run(steps);
    if steps.len() == 0 {
        assert(start.handouts(steps) =~= Seq::new(0, |i: int| i as usize));
        lemma_count_beyond(start.done, 0);
        assert(start.done.take(0) =~= Seq::<bool>::empty());
    } else {
        let earlier = steps.drop_last();
        let before = start.run(earlier);
        lemma_pool_run(total, earlier);
        match steps.last() {
            PoolStep::Take => {
                assert(start.handouts(steps) =~= Seq::new(end.handed, |i: int| i as usize));
            },
            PoolStep::Record(file) => {
                if before.accepts(file) {
                    lemma_count_set_update(before.done, file as int);
                }
            },
        }
    }
    end.lemma_results_within_handed();
    if end.complete() {
        end.lemma_complete_covers_all();
    }
}

/// The ledger of a probing run over a fixed number of files, each known by
/// its position in the list of candidates.
#[derive(Debug, Clone)]
pub struct ProbeLedger {
    total: usize,
    next: usize,
    done: Vec<bool>,
    recorded: usize,
}

impl View for ProbeLedger {
    type V = LedgerView;

    closed spec fn view(&self) -> LedgerView {
        LedgerView { total: self.total as nat, handed: self.next as nat, done: self.done@ }
    }
}

impl ProbeLedger {
    /// The ledger is consistent, and its count of results is right.
    pub closed spec fn wf(self) -> bool {
        &&& self@.wf()
        &&& self.recorded == count_set(self.done@)
    }

    /// Starts a run over `total` files: none handed out, no result in.
    pub fn new(total: usize) -> (ledger: ProbeLedger)
        ensures
            ledger.wf(),
            ledger@.wf(),
            ledger@ == LedgerView::fresh(total as nat),
    {
        let mut done: Vec<bool> = Vec::new();
        while done.len() < total
            invariant
                done@.len() <= total,
                count_set(done@) == 0,
                forall|i: int| 0 <= i < done@.len() ==> !done@[i],
            decreases total - done@.len(),
        {
            let ghost before = done@;
            done.push(false);
            assert(done@.drop_last() =~= before);
        }
        assert(done@ =~= Seq::new(total as nat, |i: int| false));
        ProbeLedger { total, next: 0, done, recorded: 0 }
    }

    /// Hands out the next file: the first one not handed out yet. Returns
    /// `None`, and changes nothing, once every file has been handed out.
    pub fn take(&mut self) -> (file: Option<usize>)
        requires
            old(self).wf(),
        ensures
            final(self).wf(),
            final(self)@.wf(),
            final(self)@ == old(self)@.after_take(),
            file == old(self)@.next_file(),
    {
        if self.next < self.total {
            let file = self.next;
            self.next = self.next + 1;
            Some(file)
        } else {
            None
        }
    }

    /// Records that the result for `file` is in. The result is accepted, and
    /// `true` returned, only for a file that was handed out and has no result
    /// yet; otherwise nothing changes.
    pub fn record(&mut self, file: usize) -> (accepted: bool)
        requires
            old(self).wf(),
        ensures
            final(self).wf(),
            final(self)@.wf(),
            final(self)@ == old(self)@.after_record(file),
            accepted == old(self)@.accepts(file),
    {
        if file < self.next && !self.done[file] {
            proof {
                lemma_count_set_update(self.done@, file as int);
                lemma_count_set_bounds(self.done@.update(file as int, true));
            }
            self.done.set(file, true);
            self.recorded = self.recorded + 1;
            true
        } else {
            false
        }
    }

    /// The number of results that are in.
    pub fn results(&self) -> (count: usize)
        requires
            self.wf(),
        ensures
            count == count_set(self@.done),
            count <= self@.handed,
    {
        proof {
            self@.lemma_results_within_handed();
        }
        self.recorded
    }

    /// Tells whether the result of every file is in.
    pub fn is_complete(&self) -> (complete: bool)
        requires
            self.wf(),
        ensures
            complete == self@.complete(),
            complete == (count_set(self@.done) == self@.total),
    {
        proof {
            lemma_count_set_bounds(self.done@);
        }
        self.recorded == self.total
    }
}

} // verus!
