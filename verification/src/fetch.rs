use vstd::prelude::*;
use crate::metric::{decode_text, decode_text_exec, remote_text, remote_text_exec, transport_text,
    transport_text_exec, Metric};

verus! {

/// What one outbound call to a remote source came to, as the transport
/// reports it: the source was unreachable, it answered with a non-success
/// status, its body could not be read as text, or it delivered a body.
pub enum FetchOutcome {
    Transport,
    NonSuccess,
    BodyUnreadable,
    Body(String),
}

/// What a fetch returns: the metric's textual value, or a failure carrying a
/// human-readable reason.
pub enum FetchResult {
    Value(String),
    Failure(String),
}

/// The text a fetch result contributes to the snapshot: a value as it came,
/// a failure as its reason.
pub open spec fn result_text(r: FetchResult) -> Seq<char> {
    match r {
        FetchResult::Value(t) => t@,
        FetchResult::Failure(e) => e@,
    }
}

/// The textual value of the `USD.last` field of a JSON payload, or `None`
/// when the payload is not a JSON object carrying that field. A function of
/// the payload alone.
pub uninterp spec fn usd_last_of(body: Seq<char>) -> Option<Seq<char>>;

/// Relies on serde_json: `from_str` decodes the payload, `Value::get` looks
/// up first `"USD"` and then `"last"`, and `Value`'s display form renders a
/// non-string field as its JSON text. The extracted text depends on the
/// payload alone.
#[verifier::external_body]
fn extract_usd_last(body: &str) -> (r: Option<String>)
    ensures
        r is Some <==> usd_last_of(body@) is Some,
        r matches Some(s) ==> Some(s@) == usd_last_of(body@),
{
    let v: serde_json::Value = match serde_json::from_str(body) {
        Ok(v) => v,
        Err(_) => return None,
    };
    let usd = match v.get("USD") {
        Some(u) => u,
        None => return None,
    };
    match usd.get("last") {
        Some(serde_json::Value::String(s)) => Some(s.clone()),
        Some(other) => Some(other.to_string()),
        None => None,
    }
}

/// The market-price value derived from an extraction result: the extracted
/// text itself, or the decode failure reason when there was none to extract.
pub fn market_result(extracted: Option<String>) -> (r: FetchResult)
    ensures
        extracted matches Some(v) ==> (r matches FetchResult::Value(t) && t == v),
        extracted is None ==> (r matches FetchResult::Failure(e) && e@ == decode_text(
            Metric::MarketPrice,
        )),
{
    match extracted {
        Some(v) => FetchResult::Value(v),
        None => FetchResult::Failure(decode_text_exec(Metric::MarketPrice)),
    }
}

/// The text that fetching metric `m` yields from outcome `o`: a delivered
/// body as it came — for the market price, its extracted `USD.last` field —
/// and for every failure the reason text of its kind.
pub open spec fn fetched_text(m: Metric, o: FetchOutcome) -> Seq<char> {
    match o {
        FetchOutcome::Transport => transport_text(),
        FetchOutcome::NonSuccess => remote_text(m),
        FetchOutcome::BodyUnreadable => decode_text(m),
        FetchOutcome::Body(b) => if m is MarketPrice {
            match usd_last_of(b@) {
                Some(v) => v,
                None => decode_text(m),
            }
        } else {
            b@
        },
    }
}

/// Whether outcome `o` yields a value (rather than a failure) for metric
/// `m`: only a delivered body does, and for the market price only one whose
/// `USD.last` field can be extracted.
pub open spec fn fetch_succeeds(m: Metric, o: FetchOutcome) -> bool {
    match o {
        FetchOutcome::Body(b) => !(m is MarketPrice) || usd_last_of(b@) is Some,
        _ => false,
    }
}

/// Turn the outcome of one outbound call for metric `m` into the fetch's
/// result. Every failure mode becomes a `Failure` value — never a panic —
/// with a reason that tells the three failure kinds apart.
pub fn classify(m: Metric, o: FetchOutcome) -> (r: FetchResult)
    ensures
        result_text(r) == fetched_text(m, o),
        r is Value <==> fetch_succeeds(m, o),
{
    match o {
        FetchOutcome::Transport => FetchResult::Failure(transport_text_exec()),
        FetchOutcome::NonSuccess => FetchResult::Failure(remote_text_exec(m)),
        FetchOutcome::BodyUnreadable => FetchResult::Failure(decode_text_exec(m)),
        FetchOutcome::Body(b) => match m {
            Metric::MarketPrice => market_result(extract_usd_last(b.as_str())),
            _ => FetchResult::Value(b),
        },
    }
}

/// The textual value a fetch result stores: the value itself, or the
/// failure's reason.
pub fn into_text(r: FetchResult) -> (t: String)
    ensures
        t@ == result_text(r),
{
    match r {
        FetchResult::Value(v) => v,
        FetchResult::Failure(e) => e,
    }
}

} // verus!
