use vstd::prelude::*;
use crate::cache::SharedData;
use crate::metric::Metric;

verus! {

/// One durable, immutable row of the observation log: a past snapshot, the
/// moment it was written, and an identifier that grows by one per row.
pub struct ObservationRecord {
    pub id: u64,
    pub values: SharedData,
    pub timestamp: u64,
}

/// The append-only log of observations. Rows are only ever added at the
/// end; none is mutated or removed.
pub struct ObservationLog {
    records: Vec<ObservationRecord>,
}

impl View for ObservationLog {
    type V = Seq<ObservationRecord>;

    closed spec fn view(&self) -> Seq<ObservationRecord> {
        self.records@
    }
}

impl ObservationLog {
    /// Well-formedness: the identifier of each row is its position, so
    /// identifiers increase by one in the order rows were appended.
    pub open spec fn wf(self) -> bool {
        forall|i: int| 0 <= i < self@.len() ==> (#[trigger] self@[i]).id == i
    }

    /// An empty log, as the store starts: no observation yet.
    pub fn new() -> (l: ObservationLog)
        ensures
            l@ == Seq::<ObservationRecord>::empty(),
            l.wf(),
    {
        ObservationLog { records: Vec::new() }
    }

    /// The number of observations recorded so far.
    pub fn len(&self) -> (n: usize)
        ensures
            n == self@.len(),
    {
        self.records.len()
    }

    /// Read back the row at position `i`.
    pub fn record_at(&self, i: usize) -> (r: &ObservationRecord)
        requires
            i < self@.len(),
        ensures
            *r == self@[i as int],
    {
        &self.records[i]
    }

    /// Append snapshot `snap` as one new row, written at `timestamp`, and
    /// return the row's identifier. Every prior row is left exactly as it
    /// was; the log grows by exactly this one row.
    pub fn append(&mut self, snap: &SharedData, timestamp: u64) -> (id: u64)
        requires
            old(self).wf(),
            old(self)@.len() < u64::MAX,
        ensures
            final (self).wf(),
            id == old(self)@.len(),
            final (self)@.len() == old(self)@.len() + 1,
            final (self)@.subrange(0, old(self)@.len() as int) == old(self)@,
            final (self)@.last().id == id,
            final (self)@.last().timestamp == timestamp,
            forall|m: Metric|
                final (self)@.last().values.spec_get(m) == snap.spec_get(m),
    {
        let id: u64 = self.records.len() as u64;
        let row = ObservationRecord {
            id,
            values: SharedData {
                mempool_size: snap.mempool_size.clone(),
                block_height: snap.block_height.clone(),
                total_circulating_bitcoin: snap.total_circulating_bitcoin.clone(),
                market_price: snap.market_price.clone(),
                average_block_size: snap.average_block_size.clone(),
            },
            timestamp,
        };
        self.records.push(row);
        proof {
            assert(final (self)@.subrange(0, old(self)@.len() as int) =~= old(self)@);
        }
        id
    }
}

/// Law: in a well-formed log no two rows share an identifier, so a row,
/// once written, is never overwritten by a later append.
pub proof fn lemma_ids_unique(l: ObservationLog, i: int, j: int)
    requires
        l.wf(),
        0 <= i < l@.len(),
        0 <= j < l@.len(),
        i != j,
    ensures
        l@[i].id != l@[j].id,
{
}

} // verus!
