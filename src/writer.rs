//! Batching policy of the cache writer.
//!
//! Records are written in contiguous batches of a fixed size, one transaction
//! per batch. A row that the store rejects is noted and the batch goes on; a
//! transaction that cannot begin or commit stops the writer. `BatchWriter`
//! holds the decisions: the caller performs each action that `next_action`
//! names against the store and reports the outcome with `record_outcome`.
use vstd::prelude::*;

verus! {

/// What the caller is to do next against the store.
#[derive(Debug, Clone, Copy, PartialEq, Eq)]
pub enum WriterAction {
    /// Open a transaction for the next batch.
    Begin,
    /// Insert the record at this index into the open transaction.
    Insert(usize),
    /// Commit the open transaction.
    Commit,
    /// Every batch is committed.
    Finish,
    /// A transaction failed to begin or commit: stop.
    Abort,
}

/// Number of batches of size `b` that hold `n` records.
pub open spec fn batch_count(n: int, b: int) -> int {
    (n + b - 1) / b
}

pub open spec fn min_int(a: int, b: int) -> int {
    if a <= b { a } else { b }
}

/// State of a batched write of `total` records.
pub struct BatchWriter {
    pub total: usize,
    pub batch_size: usize,
    /// Index of the next record to insert.
    pub next: usize,
    /// End (exclusive) of the open batch.
    pub batch_end: usize,
    pub in_transaction: bool,
    /// A transaction failed to begin or commit.
    pub failed: bool,
    /// Rows the store accepted.
    pub inserted: usize,
    /// Indices of the rows the store rejected, in order.
    pub row_errors: Vec<usize>,
    /// Transactions committed.
    pub commits: usize,
}

impl BatchWriter {
    pub open spec fn wf(&self) -> bool {
        let b = self.batch_size as int;
        let c = self.commits as int;
        let n = self.total as int;
        &&& b > 0
        &&& self.next <= self.total
        &&& self.commits <= self.total
        &&& self.inserted + self.row_errors@.len() == self.next
        &&& forall|k: int| 0 <= k < self.row_errors@.len() ==> self.row_errors@[k] < self.next
        &&& !self.failed ==> if self.in_transaction {
            &&& c * b <= self.next <= self.batch_end
            &&& self.batch_end == min_int((c + 1) * b, n)
            &&& c * b < n
        } else {
            &&& self.next == min_int(c * b, n)
            &&& (c == 0 || (c - 1) * b < n)
        }
    }

    /// The action that the state calls for.
    pub open spec fn action(&self) -> WriterAction {
        if self.failed {
            WriterAction::Abort
        } else if !self.in_transaction {
            if self.next == self.total {
                WriterAction::Finish
            } else {
                WriterAction::Begin
            }
        } else if self.next < self.batch_end {
            WriterAction::Insert(self.next)
        } else {
            WriterAction::Commit
        }
    }

    /// A writer for `total` records in batches of `batch_size`.
    pub fn new(total: usize, batch_size: usize) -> (r: BatchWriter)
        requires
            batch_size > 0,
        ensures
            r.wf(),
            r.total == total,
            r.batch_size == batch_size,
            r.next == 0,
            r.inserted == 0,
            r.commits == 0,
            r.row_errors@.len() == 0,
            !r.in_transaction,
            !r.failed,
    {
        let r = BatchWriter {
            total,
            batch_size,
            next: 0,
            batch_end: 0,
            in_transaction: false,
            failed: false,
            inserted: 0,
            row_errors: Vec::new(),
            commits: 0,
        };
        assert(0 * (batch_size as int) == 0) by (nonlinear_arith);
        r
    }

    /// The action to perform next.
    pub fn next_action(&self) -> (r: WriterAction)
        requires
            self.wf(),
        ensures
            r == self.action(),
    {
        if self.failed {
            WriterAction::Abort
        } else if !self.in_transaction {
            if self.next == self.total {
                WriterAction::Finish
            } else {
                WriterAction::Begin
            }
        } else if self.next < self.batch_end {
            WriterAction::Insert(self.next)
        } else {
            WriterAction::Commit
        }
    }

    /// Takes in the outcome of the action last named by `next_action`.
    pub fn record_outcome(&mut self, ok: bool)
        requires
            old(self).wf(),
            old(self).action() is Begin || old(self).action() is Insert || old(self).action() is Commit,
        ensures
            final(self).wf(),
            final(self).total == old(self).total,
            final(self).batch_size == old(self).batch_size,
            old(self).action() is Begin ==> if ok {
                &&& final(self).in_transaction
                &&& !final(self).failed
                &&& final(self).next == old(self).next
                &&& final(self).batch_end == min_int(old(self).next + old(self).batch_size, old(self).total as int)
                &&& final(self).commits == old(self).commits
                &&& final(self).inserted == old(self).inserted
                &&& final(self).row_errors@ == old(self).row_errors@
            } else {
                final(self).failed
            },
            old(self).action() is Insert ==> {
                &&& final(self).in_transaction
                &&& !final(self).failed
                &&& final(self).next == old(self).next + 1
                &&& final(self).batch_end == old(self).batch_end
                &&& final(self).commits == old(self).commits
                &&& if ok {
                    &&& final(self).inserted == old(self).inserted + 1
                    &&& final(self).row_errors@ == old(self).row_errors@
                } else {
                    &&& final(self).inserted == old(self).inserted
                    &&& final(self).row_errors@ == old(self).row_errors@.push(old(self).next)
                }
            },
            old(self).action() is Commit ==> if ok {
                &&& !final(self).in_transaction
                &&& !final(self).failed
                &&& final(self).next == old(self).next
                &&& final(self).commits == old(self).commits + 1
                &&& final(self).inserted == old(self).inserted
                &&& final(self).row_errors@ == old(self).row_errors@
            } else {
                final(self).failed
            },
    {
        let ghost b = self.batch_size as int;
        let ghost c = self.commits as int;
        let ghost n = self.total as int;
        if !self.in_transaction {
            if ok {
                proof {
                    assert((c + 1) * b == c * b + b) by (nonlinear_arith);
                }
                self.batch_end = if self.total - self.next > self.batch_size {
                    self.next + self.batch_size
                } else {
                    self.total
                };
                self.in_transaction = true;
            } else {
                self.failed = true;
            }
        } else if self.next < self.batch_end {
            if ok {
                self.inserted = self.inserted + 1;
            } else {
                self.row_errors.push(self.next);
            }
            self.next = self.next + 1;
        } else {
            if ok {
                proof {
                    assert(c < n) by (nonlinear_arith)
                        requires c * b < n, b > 0, c >= 0;
                    assert((c + 1 - 1) * b == c * b) by (nonlinear_arith);
                }
                self.commits = self.commits + 1;
                self.in_transaction = false;
            } else {
                self.failed = true;
            }
        }
    }
}

/// When every batch is committed, exactly `ceil(total / batch_size)`
/// transactions were committed and every record was attempted once: the
/// accepted rows and the rejected ones add up to `total`, and with no
/// rejected row all `total` records are stored.
pub proof fn lemma_batch_count(w: BatchWriter)
    requires
        w.wf(),
        w.action() == WriterAction::Finish,
    ensures
        w.commits == batch_count(w.total as int, w.batch_size as int),
        w.inserted + w.row_errors@.len() == w.total,
        w.row_errors@.len() == 0 ==> w.inserted == w.total,
{
    let b = w.batch_size as int;
    let c = w.commits as int;
    let n = w.total as int;
    if c == 0 {
        assert(0 * b == 0) by (nonlinear_arith);
        assert(n == 0);
        assert((0 + b - 1) / b == 0) by (nonlinear_arith)
            requires b > 0;
    } else {
        assert(c * b >= n);
        assert((c - 1) * b < n);
        assert((n + b - 1) / b == c) by (nonlinear_arith)
            requires c * b >= n, (c - 1) * b < n, b > 0, c > 0;
    }
}

/// A row that the store rejects does not end its batch: the transaction stays
/// open, the row is noted, and the next record is attempted.
pub proof fn lemma_rejected_row_keeps_batch(before: BatchWriter, after: BatchWriter)
    requires
        before.wf(),
        before.action() is Insert,
        after.wf(),
        after.in_transaction,
        !after.failed,
        after.next == before.next + 1,
        after.batch_end == before.batch_end,
        after.row_errors@ == before.row_errors@.push(before.next),
    ensures
        after.action() is Insert || after.action() is Commit,
        after.row_errors@.contains(before.next),
{
    assert(after.row_errors@[after.row_errors@.len() - 1] == before.next);
}

} // verus!
