//! The remote service's error envelope, and error normalization.
//!
//! A failing response may carry a structured envelope: a JSON object whose
//! `errors` field is an ordered list of error objects, each with a
//! human-readable `message`. The wire order is trusted as priority order and
//! only the first message is surfaced. When the envelope is absent,
//! malformed, or empty, the caller instead sees the textual HTTP status.

use vstd::prelude::*;

use crate::status::{spec_status_text, status_text};

verus! {

/// The messages of the error envelope that the body text parses to: one
/// sequence per entry of its `errors` list, in wire order, or `None` when
/// the body is not a well-formed envelope.
pub uninterp spec fn envelope_messages(body: Seq<char>) -> Option<Seq<Seq<char>>>;

/// Relies on `serde_json::from_str` and `serde_json::Value`'s accessors:
/// parsing is a function of the body text alone. Yields the `message` of
/// each entry under the body's `errors` list, in order; `None` when the
/// body is not JSON, has no `errors` list, or has an entry without a string
/// `message`.
#[verifier::external_body]
fn parse_envelope_messages(body: &str) -> (r: Option<Vec<String>>)
    ensures
        r.deep_view() == envelope_messages(body@),
{
    let parsed: serde_json::Value = match serde_json::from_str(body) {
        Ok(v) => v,
        Err(_) => return None,
    };
    let list = match parsed.get("errors").and_then(serde_json::Value::as_array) {
        Some(l) => l,
        None => return None,
    };
    list.iter().map(|e| e.get("message").and_then(serde_json::Value::as_str).map(str::to_string)).collect()
}

/// The normalized message for a failing response: the first envelope
/// message when the body holds a non-empty envelope, else the textual HTTP
/// status.
pub open spec fn spec_normalized_error(status: u16, body: Seq<char>) -> Seq<char> {
    match envelope_messages(body) {
        Some(msgs) => if msgs.len() > 0 {
            msgs[0]
        } else {
            spec_status_text(status)
        },
        None => spec_status_text(status),
    }
}

/// Normalizes a failing response to one error message, exactly as
/// [`spec_normalized_error`] describes.
pub fn normalized_error(status: u16, body: &str) -> (r: String)
    ensures
        r@ == spec_normalized_error(status, body@),
{
    match parse_envelope_messages(body) {
        Some(mut msgs) => {
            if msgs.len() > 0 {
                let ghost orig = msgs.deep_view();
                let first = msgs.remove(0);
                proof {
                    assert(first@ == orig[0]);
                }
                first
            } else {
                status_text(status)
            }
        },
        None => status_text(status),
    }
}

/// The first entry always wins: whatever the length of a non-empty
/// envelope, the normalized message is its first message.
pub proof fn lemma_first_error_wins(status: u16, body: Seq<char>, msgs: Seq<Seq<char>>)
    requires
        envelope_messages(body) == Some(msgs),
        msgs.len() > 0,
    ensures
        spec_normalized_error(status, body) == msgs[0],
{
}

/// With no envelope, a malformed one, or an empty one, the normalized
/// message is the textual HTTP status, which always names the status code's
/// decimal digits.
pub proof fn lemma_status_text_fallback(status: u16, body: Seq<char>)
    requires
        envelope_messages(body) is None || (envelope_messages(body) matches Some(msgs)
            && msgs.len() == 0),
    ensures
        spec_normalized_error(status, body) == spec_status_text(status),
        spec_normalized_error(status, body).subrange(
            0,
            crate::status::spec_decimal(status as nat).len() as int,
        ) =~= crate::status::spec_decimal(status as nat),
{
    crate::status::lemma_status_text_names_code(status);
}

} // verus!
