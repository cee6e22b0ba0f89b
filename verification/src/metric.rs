use vstd::prelude::*;
use vstd::string::StringExecFns;

verus! {

/// The closed set of metrics this service tracks. Every metric's value is
/// kept as text, even when the remote source reports a number.
#[derive(Clone, Copy, PartialEq, Eq, Structural, Debug)]
pub enum Metric {
    MempoolSize,
    BlockHeight,
    TotalCirculatingBitcoin,
    MarketPrice,
    AverageBlockSize,
}

/// The three ways a fetch can fail: the remote source could not be reached,
/// it answered with a non-success status, or its response body was unusable.
#[derive(Clone, Copy)]
pub enum FailureKind {
    Transport,
    Remote,
    Decode,
}

/// The reason text recorded when a remote source could not be reached.
pub open spec fn transport_text() -> Seq<char> {
    "Unable to fetch data"@
}

/// The reason text recorded when a remote source answered with a
/// non-success status.
pub open spec fn remote_text(m: Metric) -> Seq<char> {
    match m {
        Metric::MempoolSize => "Error fetching mempool size"@,
        Metric::BlockHeight => "Error fetching block height"@,
        Metric::TotalCirculatingBitcoin => "Error fetching total circulating bitcoin"@,
        Metric::MarketPrice => "Error fetching market price"@,
        Metric::AverageBlockSize => "Error fetching average block size"@,
    }
}

/// The reason text recorded when a response body was unusable: it could not
/// be read as text, or it did not decode to the expected field.
pub open spec fn decode_text(m: Metric) -> Seq<char> {
    match m {
        Metric::MempoolSize => "Error decoding mempool size"@,
        Metric::BlockHeight => "Error decoding block height"@,
        Metric::TotalCirculatingBitcoin => "Error decoding total circulating bitcoin"@,
        Metric::MarketPrice => "Error decoding market price"@,
        Metric::AverageBlockSize => "Error decoding average block size"@,
    }
}

/// The reason text a failed fetch of metric `m` contributes as the metric's
/// value, by the kind of failure.
pub open spec fn failure_text(m: Metric, k: FailureKind) -> Seq<char> {
    match k {
        FailureKind::Transport => transport_text(),
        FailureKind::Remote => remote_text(m),
        FailureKind::Decode => decode_text(m),
    }
}

pub(crate) fn transport_text_exec() -> (r: String)
    ensures
        r@ == transport_text(),
{
    String::from_str("Unable to fetch data")
}

pub(crate) fn remote_text_exec(m: Metric) -> (r: String)
    ensures
        r@ == remote_text(m),
{
    match m {
        Metric::MempoolSize => String::from_str("Error fetching mempool size"),
        Metric::BlockHeight => String::from_str("Error fetching block height"),
        Metric::TotalCirculatingBitcoin => String::from_str(
            "Error fetching total circulating bitcoin",
        ),
        Metric::MarketPrice => String::from_str("Error fetching market price"),
        Metric::AverageBlockSize => String::from_str("Error fetching average block size"),
    }
}

pub(crate) fn decode_text_exec(m: Metric) -> (r: String)
    ensures
        r@ == decode_text(m),
{
    match m {
        Metric::MempoolSize => String::from_str("Error decoding mempool size"),
        Metric::BlockHeight => String::from_str("Error decoding block height"),
        Metric::TotalCirculatingBitcoin => String::from_str(
            "Error decoding total circulating bitcoin",
        ),
        Metric::MarketPrice => String::from_str("Error decoding market price"),
        Metric::AverageBlockSize => String::from_str("Error decoding average block size"),
    }
}

/// Law: for any one metric, the reason texts of the three failure kinds are
/// pairwise distinct, so a cached value tells transport failures, remote
/// non-success answers and undecodable bodies apart.
pub proof fn lemma_failure_reasons_distinct(m: Metric, k1: FailureKind, k2: FailureKind)
    requires
        k1 != k2,
    ensures
        failure_text(m, k1) != failure_text(m, k2),
{
    reveal_strlit("Unable to fetch data");
    reveal_strlit("Error fetching mempool size");
    reveal_strlit("Error fetching block height");
    reveal_strlit("Error fetching total circulating bitcoin");
    reveal_strlit("Error fetching market price");
    reveal_strlit("Error fetching average block size");
    reveal_strlit("Error decoding mempool size");
    reveal_strlit("Error decoding block height");
    reveal_strlit("Error decoding total circulating bitcoin");
    reveal_strlit("Error decoding market price");
    reveal_strlit("Error decoding average block size");
    assert(transport_text().len() == 20);
    assert(remote_text(m).len() != 20);
    assert(decode_text(m).len() != 20);
    assert(remote_text(m)[6] == 'f');
    assert(decode_text(m)[6] == 'd');
}

} // verus!
