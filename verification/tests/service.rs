use metrics_cache::cache::{
    query_average_block_size, query_block_height, query_market_price, query_mempool_size,
    query_total_circulating_bitcoin, MetricCache,
};
use metrics_cache::fetch::{classify, into_text, FetchOutcome, FetchResult};
use metrics_cache::metric::Metric;
use metrics_cache::refresh::{build_snapshot, run_tick};
use metrics_cache::store::ObservationLog;

fn value_text(r: FetchResult) -> String {
    match r {
        FetchResult::Value(t) => t,
        FetchResult::Failure(e) => panic!("expected a value, got failure {:?}", e),
    }
}

fn failure_text(r: FetchResult) -> String {
    match r {
        FetchResult::Value(t) => panic!("expected a failure, got value {:?}", t),
        FetchResult::Failure(e) => e,
    }
}

#[test]
fn cache_starts_empty() {
    let cache = MetricCache::new();
    assert_eq!(query_mempool_size(&cache), "");
    assert_eq!(query_block_height(&cache), "");
    assert_eq!(query_total_circulating_bitcoin(&cache), "");
    assert_eq!(query_market_price(&cache), "");
    assert_eq!(query_average_block_size(&cache), "");
}

#[test]
fn transport_failure_is_soft() {
    let r = classify(Metric::MempoolSize, FetchOutcome::Transport);
    assert_eq!(failure_text(r), "Unable to fetch data");
}

#[test]
fn remote_failure_is_soft() {
    let r = classify(Metric::MempoolSize, FetchOutcome::NonSuccess);
    assert_eq!(failure_text(r), "Error fetching mempool size");
}

#[test]
fn unreadable_body_is_soft() {
    let r = classify(Metric::MempoolSize, FetchOutcome::BodyUnreadable);
    assert_eq!(failure_text(r), "Error decoding mempool size");
}

#[test]
fn failure_reasons_are_distinct() {
    for m in [
        Metric::MempoolSize,
        Metric::BlockHeight,
        Metric::TotalCirculatingBitcoin,
        Metric::MarketPrice,
        Metric::AverageBlockSize,
    ] {
        let transport = failure_text(classify(m, FetchOutcome::Transport));
        let remote = failure_text(classify(m, FetchOutcome::NonSuccess));
        let decode = failure_text(classify(m, FetchOutcome::BodyUnreadable));
        assert_ne!(transport, remote);
        assert_ne!(transport, decode);
        assert_ne!(remote, decode);
    }
}

#[test]
fn plain_body_is_kept_verbatim() {
    let r = classify(Metric::BlockHeight, FetchOutcome::Body("870000".to_string()));
    assert_eq!(value_text(r), "870000");
}

#[test]
fn market_price_extracts_usd_last() {
    let payload = "{\"USD\":{\"last\":\"97000.12\"}}".to_string();
    let r = classify(Metric::MarketPrice, FetchOutcome::Body(payload));
    assert_eq!(value_text(r), "97000.12");
}

#[test]
fn market_price_extracts_numeric_usd_last() {
    let payload = "{\"USD\":{\"last\":97000.12}}".to_string();
    let r = classify(Metric::MarketPrice, FetchOutcome::Body(payload));
    assert_eq!(value_text(r), "97000.12");
}

#[test]
fn market_price_empty_object_is_decode_failure() {
    let r = classify(Metric::MarketPrice, FetchOutcome::Body("{}".to_string()));
    assert_eq!(failure_text(r), "Error decoding market price");
}

#[test]
fn market_price_invalid_json_is_decode_failure() {
    let payload = "not json at all".to_string();
    let r = classify(Metric::MarketPrice, FetchOutcome::Body(payload));
    assert_eq!(failure_text(r), "Error decoding market price");
}

#[test]
fn market_price_missing_last_is_decode_failure() {
    let payload = "{\"USD\":{\"sell\":\"1\"}}".to_string();
    let r = classify(Metric::MarketPrice, FetchOutcome::Body(payload));
    assert_eq!(failure_text(r), "Error decoding market price");
}

#[test]
fn build_snapshot_keeps_each_result_apart() {
    let s = build_snapshot(
        FetchResult::Value("42".to_string()),
        FetchResult::Value("870000".to_string()),
        FetchResult::Failure("Error fetching total circulating bitcoin".to_string()),
        FetchResult::Value("97000.12".to_string()),
        FetchResult::Value("1.5".to_string()),
    );
    assert_eq!(s.mempool_size, "42");
    assert_eq!(s.block_height, "870000");
    assert_eq!(s.total_circulating_bitcoin, "Error fetching total circulating bitcoin");
    assert_eq!(s.market_price, "97000.12");
    assert_eq!(s.average_block_size, "1.5");
}

#[test]
fn into_text_unwraps_both_variants() {
    assert_eq!(into_text(FetchResult::Value("v".to_string())), "v");
    assert_eq!(into_text(FetchResult::Failure("reason".to_string())), "reason");
}

#[test]
fn one_tick_fills_cache_and_log() {
    let mut cache = MetricCache::new();
    let mut log = ObservationLog::new();
    let id = run_tick(
        &mut cache,
        &mut log,
        FetchOutcome::Body("42".to_string()),
        FetchOutcome::Body("870000".to_string()),
        FetchOutcome::Body("19800000".to_string()),
        FetchOutcome::Body("{\"USD\":{\"last\":\"97000.12\"}}".to_string()),
        FetchOutcome::Body("1.5".to_string()),
        1700000000,
    );
    assert_eq!(id, 0);
    assert_eq!(query_block_height(&cache), "870000");
    assert_eq!(query_market_price(&cache), "97000.12");
    assert_eq!(log.len(), 1);
    let row = log.record_at(0);
    assert_eq!(row.id, 0);
    assert_eq!(row.timestamp, 1700000000);
    assert_eq!(row.values.block_height, "870000");
    assert_eq!(row.values.market_price, "97000.12");
}

#[test]
fn single_failure_leaves_other_metrics_alone() {
    let mut cache = MetricCache::new();
    let mut log = ObservationLog::new();
    run_tick(
        &mut cache,
        &mut log,
        FetchOutcome::Body("42".to_string()),
        FetchOutcome::NonSuccess,
        FetchOutcome::Body("19800000".to_string()),
        FetchOutcome::Body("{\"USD\":{\"last\":\"97000.12\"}}".to_string()),
        FetchOutcome::Body("1.5".to_string()),
        1,
    );
    assert_eq!(query_block_height(&cache), "Error fetching block height");
    assert_eq!(query_mempool_size(&cache), "42");
    assert_eq!(query_total_circulating_bitcoin(&cache), "19800000");
    assert_eq!(query_market_price(&cache), "97000.12");
    assert_eq!(query_average_block_size(&cache), "1.5");
}

#[test]
fn second_tick_replaces_cache_whole() {
    let mut cache = MetricCache::new();
    let mut log = ObservationLog::new();
    run_tick(
        &mut cache,
        &mut log,
        FetchOutcome::Body("42".to_string()),
        FetchOutcome::Body("870000".to_string()),
        FetchOutcome::Body("19800000".to_string()),
        FetchOutcome::Body("{\"USD\":{\"last\":\"97000.12\"}}".to_string()),
        FetchOutcome::Body("1.5".to_string()),
        1,
    );
    run_tick(
        &mut cache,
        &mut log,
        FetchOutcome::Body("43".to_string()),
        FetchOutcome::Body("870001".to_string()),
        FetchOutcome::Transport,
        FetchOutcome::Body("{\"USD\":{\"last\":\"97100.00\"}}".to_string()),
        FetchOutcome::Body("1.6".to_string()),
        2,
    );
    assert_eq!(query_mempool_size(&cache), "43");
    assert_eq!(query_block_height(&cache), "870001");
    assert_eq!(query_total_circulating_bitcoin(&cache), "Unable to fetch data");
    assert_eq!(query_market_price(&cache), "97100.00");
    assert_eq!(query_average_block_size(&cache), "1.6");
}

#[test]
fn ticks_append_without_rewriting_history() {
    let mut cache = MetricCache::new();
    let mut log = ObservationLog::new();
    for (i, height) in ["870000", "870001", "870002"].iter().enumerate() {
        let id = run_tick(
            &mut cache,
            &mut log,
            FetchOutcome::Body("42".to_string()),
            FetchOutcome::Body(height.to_string()),
            FetchOutcome::Body("19800000".to_string()),
            FetchOutcome::Body("{\"USD\":{\"last\":\"97000.12\"}}".to_string()),
            FetchOutcome::Body("1.5".to_string()),
            100 + i as u64,
        );
        assert_eq!(id, i as u64);
    }
    assert_eq!(log.len(), 3);
    for i in 0..3 {
        let row = log.record_at(i);
        assert_eq!(row.id, i as u64);
        assert_eq!(row.timestamp, 100 + i as u64);
        assert_eq!(row.values.block_height, format!("87000{}", i));
    }
}
