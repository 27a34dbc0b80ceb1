//! Classification of a transport outcome into the dispatcher's result.
//!
//! The embedding application performs the network round trip and hands the
//! outcome back: a transport-level failure with its description, or a
//! response with its status and body text. Classification is then exact and
//! verified:
//!
//! - a transport failure surfaces as that failure's description;
//! - a success status (2xx) surfaces the body for the caller's own decode;
//! - any other status surfaces the normalized error message (first envelope
//!   entry, or the textual status when no envelope decodes).
//!
//! There are no retries and no caching: each outcome is classified as it
//! stands.

use vstd::prelude::*;

use crate::envelope::{normalized_error, spec_normalized_error};
use crate::status::{is_success_status, spec_is_success};

verus! {

/// What the transport reported for one round trip.
#[derive(Debug, Clone, PartialEq)]
pub enum TransportOutcome {
    /// The call itself failed (connection, name resolution, TLS, timeout),
    /// with the transport's description of the failure.
    Failure(String),
    /// A response arrived, whatever its status.
    Response { status: u16, body: String },
}

/// The dispatcher's classification of one round trip.
#[derive(Debug, Clone, PartialEq)]
pub enum ClassifiedResponse {
    /// A success response: the body, to be decoded as the caller's chosen
    /// type.
    Payload(String),
    /// The normalized error message for everything else.
    Failure(String),
}

/// Classifies a transport outcome, in the order the dispatcher applies:
/// transport failures first, then the success range, then error
/// normalization.
pub fn classify_response(outcome: TransportOutcome) -> (r: ClassifiedResponse)
    ensures
        r is Payload <==> (outcome matches TransportOutcome::Response { status, body }
            && spec_is_success(status)),
        (outcome matches TransportOutcome::Failure(e) ==> (r matches ClassifiedResponse::Failure(m)
            && m@ == e@)),
        (outcome matches TransportOutcome::Response { status, body } ==> {
            &&& (spec_is_success(status) ==> (r matches ClassifiedResponse::Payload(b) && b@
                == body@))
            &&& (!spec_is_success(status) ==> (r matches ClassifiedResponse::Failure(m) && m@
                == spec_normalized_error(status, body@)))
        }),
{
    match outcome {
        TransportOutcome::Failure(e) => ClassifiedResponse::Failure(e),
        TransportOutcome::Response { status, body } => {
            if is_success_status(status) {
                ClassifiedResponse::Payload(body)
            } else {
                ClassifiedResponse::Failure(normalized_error(status, body.as_str()))
            }
        },
    }
}

} // verus!
