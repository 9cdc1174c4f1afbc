//! Committing one decoded payload into the downstream sink: exactly one
//! transaction per payload, one row per record in source order, and no
//! further insert once one has failed.

use vstd::prelude::*;

use crate::records::{NormalizedRecord, RecordView};

verus! {

/// Drives one batch through an open sink transaction. The caller asks for
/// the next row to insert with [`BatchEmitter::next_row`] and reports each
/// insert's outcome with [`BatchEmitter::record_result`]; the emitter hands
/// out the records in source order and stops at the first failure.
pub struct BatchEmitter {
    pub records: Vec<NormalizedRecord>,
    pub next: usize,
    pub failed: bool,
}

impl BatchEmitter {
    /// The emitter's internal invariant: the cursor never passes the end.
    pub open spec fn wf(self) -> bool {
        self.next <= self.records.len()
    }

    /// The row the emitter offers for insertion: the record at the cursor,
    /// or nothing once the batch is done or has failed.
    pub open spec fn offered_row(self) -> Option<RecordView> {
        if self.failed || self.next >= self.records.len() {
            None
        } else {
            Some(self.records.deep_view()[self.next as int])
        }
    }

    /// How one reported insert outcome changes the emitter: success moves
    /// the cursor past the inserted row, failure marks the batch failed and
    /// stays failed.
    pub open spec fn record_result_sp(self, ok: bool) -> BatchEmitter {
        if !ok {
            BatchEmitter { failed: true, ..self }
        } else if self.next < self.records.len() {
            BatchEmitter { next: (self.next + 1) as usize, ..self }
        } else {
            self
        }
    }

    /// Opens one batch over the given records, cursor at the first.
    pub fn new(records: Vec<NormalizedRecord>) -> (r: BatchEmitter)
        ensures
            r == (BatchEmitter { records, next: 0, failed: false }),
            r.wf(),
    {
        BatchEmitter { records, next: 0, failed: false }
    }

    /// The next row to insert, in source order; `None` once every record
    /// has been inserted or an insert has failed.
    pub fn next_row(&self) -> (r: Option<&NormalizedRecord>)
        ensures
            r is Some <==> self.offered_row() is Some,
            r matches Some(x) ==> self.offered_row() == Some(x.deep_view()) && *x
                == self.records[self.next as int],
    {
        if self.failed || self.next >= self.records.len() {
            None
        } else {
            Some(&self.records[self.next])
        }
    }

    /// Reports the outcome of inserting the offered row. A failure aborts
    /// the batch: it is recorded and no later outcome clears it.
    pub fn record_result(&mut self, ok: bool)
        ensures
            *final(self) == old(self).record_result_sp(ok),
            final(self).failed == (old(self).failed || !ok),
            old(self).wf() ==> final(self).wf(),
    {
        if !ok {
            self.failed = true;
        } else if self.next < self.records.len() {
            self.next = self.next + 1;
        }
    }

    /// Whether every record of the batch was inserted: only then may the
    /// transaction be committed.
    pub fn is_complete(&self) -> (r: bool)
        ensures
            r == (!self.failed && self.next == self.records.len()),
    {
        !self.failed && self.next == self.records.len()
    }

    /// Whether an insert failed: the batch must then be aborted and the
    /// failure is fatal to the connector.
    pub fn has_failed(&self) -> (r: bool)
        ensures
            r == self.failed,
    {
        self.failed
    }
}

/// Transaction atomicity, on the emitter's side: once an insert has failed,
/// the emitter offers no further row, whatever outcomes are reported later —
/// failure is absorbing and suppresses the offer.
pub proof fn lemma_no_insert_after_failure(e: BatchEmitter, ok: bool)
    requires
        e.failed,
    ensures
        e.offered_row() is None,
        e.record_result_sp(ok).failed,
        e.record_result_sp(ok).offered_row() is None,
{
}

/// The emitter walks the batch in source order: while no insert has failed,
/// the row offered after `k` successful outcomes is record `k`.
pub proof fn lemma_rows_in_source_order(e: BatchEmitter, k: int)
    requires
        !e.failed,
        e.next == k,
        0 <= k < e.records.len(),
    ensures
        e.offered_row() == Some(e.records.deep_view()[k]),
        e.record_result_sp(true).next == k + 1,
{
}

} // verus!
