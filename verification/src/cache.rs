use vstd::prelude::*;
use crate::metric::Metric;

verus! {

/// One complete set of the five metric values, captured at a single refresh
/// tick. A snapshot is created whole and replaces the cache contents whole.
pub struct SharedData {
    pub mempool_size: String,
    pub block_height: String,
    pub total_circulating_bitcoin: String,
    pub market_price: String,
    pub average_block_size: String,
}

impl SharedData {
    /// The value this snapshot holds for metric `m`.
    pub open spec fn spec_get(self, m: Metric) -> Seq<char> {
        match m {
            Metric::MempoolSize => self.mempool_size@,
            Metric::BlockHeight => self.block_height@,
            Metric::TotalCirculatingBitcoin => self.total_circulating_bitcoin@,
            Metric::MarketPrice => self.market_price@,
            Metric::AverageBlockSize => self.average_block_size@,
        }
    }

    /// The placeholder snapshot the cache starts from: every metric empty.
    pub fn new() -> (s: SharedData)
        ensures
            forall|m: Metric| s.spec_get(m) == Seq::<char>::empty(),
    {
        SharedData {
            mempool_size: String::new(),
            block_height: String::new(),
            total_circulating_bitcoin: String::new(),
            market_price: String::new(),
            average_block_size: String::new(),
        }
    }
}

/// The in-memory mapping from metric to its latest value: a single snapshot,
/// read by any number of readers and overwritten wholesale once per tick.
pub struct MetricCache {
    current: SharedData,
}

impl MetricCache {
    /// The value the cache presents for metric `m`.
    pub closed spec fn spec_get(self, m: Metric) -> Seq<char> {
        self.current.spec_get(m)
    }

    /// A fresh cache holds the empty-string placeholder for every metric.
    pub fn new() -> (c: MetricCache)
        ensures
            forall|m: Metric| c.spec_get(m) == Seq::<char>::empty(),
    {
        MetricCache { current: SharedData::new() }
    }

    /// Read the latest value of metric `m`. Never fails: before the first
    /// tick it yields the empty placeholder, afterwards the last snapshot's
    /// value or failure reason for `m`.
    pub fn get(&self, m: Metric) -> (r: &String)
        ensures
            r@ == self.spec_get(m),
    {
        match m {
            Metric::MempoolSize => &self.current.mempool_size,
            Metric::BlockHeight => &self.current.block_height,
            Metric::TotalCirculatingBitcoin => &self.current.total_circulating_bitcoin,
            Metric::MarketPrice => &self.current.market_price,
            Metric::AverageBlockSize => &self.current.average_block_size,
        }
    }

    /// Replace the cache contents with snapshot `s`, whole: the one mutator,
    /// called once per completed tick. Afterwards every metric reads its
    /// value from `s`; no metric retains a value of the snapshot replaced.
    pub fn replace(&mut self, s: SharedData)
        ensures
            forall|m: Metric| final (self).spec_get(m) == s.spec_get(m),
    {
        self.current = s;
    }
}

/// Whether cache state `c` presents exactly the values of snapshot `s`, for
/// all five metrics at once.
pub open spec fn presents(c: MetricCache, s: SharedData) -> bool {
    forall|m: Metric| c.spec_get(m) == s.spec_get(m)
}

/// Law: a replacement is atomic at the level of cache states. A reader runs
/// against some one cache state; while a tick swaps snapshot `before` for
/// snapshot `after`, every state presents one of the two snapshots whole, so
/// no reader observes a mix of the two.
pub proof fn lemma_replace_is_atomic(c: MetricCache, before: SharedData, after: SharedData)
    requires
        presents(c, before) || presents(c, after),
    ensures
        (forall|m: Metric| c.spec_get(m) == before.spec_get(m)) || (forall|m: Metric|
            c.spec_get(m) == after.spec_get(m)),
{
}

/// Read the latest mempool-size value.
pub fn query_mempool_size(cache: &MetricCache) -> (r: &String)
    ensures
        r@ == cache.spec_get(Metric::MempoolSize),
{
    cache.get(Metric::MempoolSize)
}

/// Read the latest block-height value.
pub fn query_block_height(cache: &MetricCache) -> (r: &String)
    ensures
        r@ == cache.spec_get(Metric::BlockHeight),
{
    cache.get(Metric::BlockHeight)
}

/// Read the latest total-circulating-bitcoin value.
pub fn query_total_circulating_bitcoin(cache: &MetricCache) -> (r: &String)
    ensures
        r@ == cache.spec_get(Metric::TotalCirculatingBitcoin),
{
    cache.get(Metric::TotalCirculatingBitcoin)
}

/// Read the latest market-price value.
pub fn query_market_price(cache: &MetricCache) -> (r: &String)
    ensures
        r@ == cache.spec_get(Metric::MarketPrice),
{
    cache.get(Metric::MarketPrice)
}

/// Read the latest average-block-size value.
pub fn query_average_block_size(cache: &MetricCache) -> (r: &String)
    ensures
        r@ == cache.spec_get(Metric::AverageBlockSize),
{
    cache.get(Metric::AverageBlockSize)
}

} // verus!
