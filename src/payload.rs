use vstd::prelude::*;

use vstd::string::StringExecFns;

verus! {

/// What serde_json writes for a string: the text quoted, with the characters
/// that JSON cannot hold bare escaped.
pub uninterp spec fn json_quoted(s: Seq<char>) -> Seq<char>;

/// Relies on serde_json::to_string, which writes a `str` as a JSON string;
/// for a `str` it writes into memory and cannot fail.
#[verifier::external_body]
fn quote_json(s: &str) -> (r: String)
    ensures
        r@ == json_quoted(s@),
{
    match serde_json::to_string(s) {
        Ok(t) => t,
        Err(_) => String::new(),
    }
}

/// The body of one periodic send: the time of the tick and a fixed marker.
pub open spec fn periodic_payload_of(timestamp: Seq<char>) -> Seq<char> {
    "{\"timestamp\":"@ + json_quoted(timestamp) + ",\"message\":\"periodic trigger\"}"@
}

/// The JSON text sent on each tick, stamped with `timestamp`.
pub fn periodic_payload(timestamp: &str) -> (r: String)
    ensures
        r@ == periodic_payload_of(timestamp@),
{
    let mut r = String::from_str("{\"timestamp\":");
    let q = quote_json(timestamp);
    r.append(q.as_str());
    r.append(",\"message\":\"periodic trigger\"}");
    r
}

} // verus!
