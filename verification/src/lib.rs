//! A verified client layer for an authenticated JSON-over-HTTPS API.
//!
//! The crate models the session configuration (an anonymous or authenticated
//! set of default headers), the state machine that derives an authenticated
//! configuration from a probe response, and the classification of HTTP
//! responses into decoded payloads or normalized error messages. Network
//! transport is left to the embedding application, which feeds outcomes back
//! into the verified classifiers.

use vstd::prelude::*;

pub mod dispatch;
pub mod envelope;
pub mod json;
pub mod request;
pub mod session;
pub mod status;
pub mod users;
