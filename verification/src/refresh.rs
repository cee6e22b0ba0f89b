use vstd::prelude::*;
use crate::cache::{MetricCache, SharedData};
use crate::fetch::{classify, fetched_text, into_text, result_text, FetchOutcome, FetchResult};
use crate::metric::Metric;
use crate::store::ObservationLog;

verus! {

/// Build one snapshot from the five fetch results of a tick. Each metric's
/// entry is exactly the text of its own result — a fetched value, or a
/// failure's reason — so one metric's failure leaves the others untouched.
pub fn build_snapshot(
    mempool_size: FetchResult,
    block_height: FetchResult,
    total_circulating_bitcoin: FetchResult,
    market_price: FetchResult,
    average_block_size: FetchResult,
) -> (s: SharedData)
    ensures
        s.spec_get(Metric::MempoolSize) == result_text(mempool_size),
        s.spec_get(Metric::BlockHeight) == result_text(block_height),
        s.spec_get(Metric::TotalCirculatingBitcoin) == result_text(total_circulating_bitcoin),
        s.spec_get(Metric::MarketPrice) == result_text(market_price),
        s.spec_get(Metric::AverageBlockSize) == result_text(average_block_size),
{
    SharedData {
        mempool_size: into_text(mempool_size),
        block_height: into_text(block_height),
        total_circulating_bitcoin: into_text(total_circulating_bitcoin),
        market_price: into_text(market_price),
        average_block_size: into_text(average_block_size),
    }
}

/// Commit one tick: classify the five fetch outcomes, assemble the snapshot,
/// append it to the observation log as one new row written at `timestamp`,
/// and replace the cache contents with it whole. Returns the new row's
/// identifier.
///
/// Afterwards the cache presents, for each metric, exactly the text this
/// tick's outcome for that metric yields — never a mix with an earlier
/// tick — and the log holds exactly one more row, carrying the same five
/// values, with every prior row unchanged.
pub fn run_tick(
    cache: &mut MetricCache,
    log: &mut ObservationLog,
    mempool_size: FetchOutcome,
    block_height: FetchOutcome,
    total_circulating_bitcoin: FetchOutcome,
    market_price: FetchOutcome,
    average_block_size: FetchOutcome,
    timestamp: u64,
) -> (id: u64)
    requires
        old(log).wf(),
        old(log)@.len() < u64::MAX,
    ensures
        final (cache).spec_get(Metric::MempoolSize) == fetched_text(
            Metric::MempoolSize,
            mempool_size,
        ),
        final (cache).spec_get(Metric::BlockHeight) == fetched_text(
            Metric::BlockHeight,
            block_height,
        ),
        final (cache).spec_get(Metric::TotalCirculatingBitcoin) == fetched_text(
            Metric::TotalCirculatingBitcoin,
            total_circulating_bitcoin,
        ),
        final (cache).spec_get(Metric::MarketPrice) == fetched_text(
            Metric::MarketPrice,
            market_price,
        ),
        final (cache).spec_get(Metric::AverageBlockSize) == fetched_text(
            Metric::AverageBlockSize,
            average_block_size,
        ),
        final (log).wf(),
        id == old(log)@.len(),
        final (log)@.len() == old(log)@.len() + 1,
        final (log)@.subrange(0, old(log)@.len() as int) == old(log)@,
        final (log)@.last().id == id,
        final (log)@.last().timestamp == timestamp,
        forall|m: Metric|
            final (log)@.last().values.spec_get(m) == final (cache).spec_get(m),
{
    let r_mempool = classify(Metric::MempoolSize, mempool_size);
    let r_height = classify(Metric::BlockHeight, block_height);
    let r_total = classify(Metric::TotalCirculatingBitcoin, total_circulating_bitcoin);
    let r_price = classify(Metric::MarketPrice, market_price);
    let r_avg = classify(Metric::AverageBlockSize, average_block_size);
    let snapshot = build_snapshot(r_mempool, r_height, r_total, r_price, r_avg);
    let id = log.append(&snapshot, timestamp);
    cache.replace(snapshot);
    id
}

} // verus!
