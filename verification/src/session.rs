//! The session configuration and its authentication state machine.
//!
//! A configuration is either fully anonymous (no default headers, no cookie
//! persistence) or fully authenticated (a non-empty session credential, a
//! derived anti-forgery token, and cookie persistence enabled). No
//! configuration in between is ever constructed, so a reader holding any
//! configuration this module produced sees one coherent state.
//!
//! Authentication is driven by a probe request: the embedding application
//! sends the probe this module describes, and feeds the outcome (transport
//! failure, or status plus the anti-forgery response header) back into
//! [`apply_probe_outcome`], which either yields the new authenticated
//! configuration or an error that leaves the previous configuration in
//! force.

use vstd::prelude::*;

use crate::request::{HttpRequest, Method};
use crate::status::spec_is_success;

verus! {

/// The transport configuration a dispatcher reads: the default headers (as
/// credential fields) and whether the transport persists cookies.
#[derive(Debug)]
pub struct SessionConfig {
    /// The raw session credential sent as the `Cookie` default header, when
    /// authenticated.
    pub cookie: Option<String>,
    /// The derived anti-forgery token sent as the `X-CSRF-TOKEN` default
    /// header, when authenticated.
    pub csrf_token: Option<String>,
    /// Whether the underlying transport stores cookies from responses.
    pub persist_cookies: bool,
}

/// Why authentication failed.
#[derive(Debug, Clone, PartialEq)]
pub enum AuthError {
    /// The remote service rejected the supplied session credential: the
    /// probe came back with a status outside the accepted set.
    InvalidCredential,
    /// The probe was accepted but its response carried no anti-forgery
    /// token, so an authenticated configuration cannot be assembled.
    MissingAntiForgeryToken,
    /// A transport-level failure while talking to the probe endpoint.
    Network(String),
}

/// What came back from the probe request: a transport failure, or a response
/// with its status and the anti-forgery token header, if present.
#[derive(Debug, Clone, PartialEq)]
pub enum ProbeOutcome {
    Transport(String),
    Response { status: u16, csrf_token: Option<String> },
}

impl SessionConfig {
    /// No credentials at all, and no cookie persistence.
    pub open spec fn is_anonymous(self) -> bool {
        &&& self.cookie is None
        &&& self.csrf_token is None
        &&& !self.persist_cookies
    }

    /// Both credentials present (the session credential non-empty) and
    /// cookie persistence enabled.
    pub open spec fn is_authenticated(self) -> bool {
        &&& (self.cookie matches Some(c) && c@.len() > 0)
        &&& self.csrf_token is Some
        &&& self.persist_cookies
    }

    /// Every configuration this module publishes is coherent: fully
    /// anonymous or fully authenticated, never in between.
    pub open spec fn wf(self) -> bool {
        self.is_anonymous() || self.is_authenticated()
    }

    /// A fresh anonymous configuration: the initial state, and the state
    /// after deauthentication.
    pub fn anonymous() -> (r: SessionConfig)
        ensures
            r.is_anonymous(),
            r.wf(),
    {
        SessionConfig { cookie: None, csrf_token: None, persist_cookies: false }
    }

    /// The session's default header pairs, in the order they are attached to
    /// an outbound request: nothing when anonymous; the `Cookie` pair then
    /// the `X-CSRF-TOKEN` pair when authenticated.
    pub fn header_pairs(&self) -> (r: Vec<(String, String)>)
        requires
            self.wf(),
        ensures
            self.is_anonymous() ==> r@.len() == 0,
            self.is_authenticated() ==> {
                &&& r@.len() == 2
                &&& r@[0].0@ == "Cookie"@
                &&& (self.cookie matches Some(ck) && r@[0].1@ == ck@)
                &&& r@[1].0@ == "X-CSRF-TOKEN"@
                &&& (self.csrf_token matches Some(ct) && r@[1].1@ == ct@)
            },
    {
        let mut r: Vec<(String, String)> = Vec::new();
        match (&self.cookie, &self.csrf_token) {
            (Some(ck), Some(ct)) => {
                r.push((String::from_str("Cookie"), ck.clone()));
                r.push((String::from_str("X-CSRF-TOKEN"), ct.clone()));
            },
            _ => {},
        }
        r
    }
}

impl AuthError {
    /// A short description of the failure, in the words a caller of the
    /// authentication operation reads: the fixed phrase for each rejection,
    /// or the transport's own description of a network failure.
    pub fn describe(&self) -> (r: String)
        ensures
            (self matches AuthError::InvalidCredential ==> r@ == "Invalid cookie"@),
            (self matches AuthError::MissingAntiForgeryToken ==> r@
                == "Failed to fetch X-CSRF-TOKEN"@),
            (self matches AuthError::Network(m) ==> r@ == m@),
    {
        match self {
            AuthError::InvalidCredential => String::from_str("Invalid cookie"),
            AuthError::MissingAntiForgeryToken => String::from_str("Failed to fetch X-CSRF-TOKEN"),
            AuthError::Network(m) => m.clone(),
        }
    }
}

/// A probe status that still yields an anti-forgery token: success, or the
/// one "forbidden" status the remote service answers with a token anyway.
pub open spec fn spec_probe_acceptable(status: u16) -> bool {
    spec_is_success(status) || status == 403
}

/// The unauthenticated probe request that elicits a fresh anti-forgery
/// token: a logout call carrying the raw credential as its only header, with
/// an empty body.
pub fn probe_request(raw_cookie: &str) -> (r: HttpRequest)
    requires
        raw_cookie@.len() > 0,
    ensures
        r.method == Method::Post,
        r.url@ == "auth.roblox.com/v2/logout"@,
        (r.headers matches Some(h) && h@.len() == 1 && h@[0].0@ == "Cookie"@ && h@[0].1@
            == raw_cookie@),
        (r.body matches Some(b) && b@ == Seq::<char>::empty()),
{
    let mut headers: Vec<(String, String)> = Vec::new();
    headers.push((String::from_str("Cookie"), String::from_str(raw_cookie)));
    HttpRequest {
        method: Method::Post,
        url: String::from_str("auth.roblox.com/v2/logout"),
        headers: Some(headers),
        body: Some(String::new()),
    }
}

/// The authentication state transition. Given the probe's outcome for the
/// credential `raw_cookie`, either the new authenticated configuration
/// (probe status acceptable and a token present) or the error that leaves
/// the previous configuration in force: `InvalidCredential` for a status
/// outside the accepted set, `MissingAntiForgeryToken` for an accepted
/// status without a token, `Network` for a transport failure.
pub fn apply_probe_outcome(raw_cookie: &str, outcome: ProbeOutcome) -> (r: Result<
    SessionConfig,
    AuthError,
>)
    requires
        raw_cookie@.len() > 0,
    ensures
        r is Ok <==> (outcome matches ProbeOutcome::Response { status, csrf_token }
            && spec_probe_acceptable(status) && csrf_token is Some),
        (outcome matches ProbeOutcome::Transport(msg) ==> (r matches Err(
            AuthError::Network(m),
        ) && m@ == msg@)),
        (outcome matches ProbeOutcome::Response { status, csrf_token } ==> {
            if !spec_probe_acceptable(status) {
                r matches Err(AuthError::InvalidCredential)
            } else {
                match csrf_token {
                    None => r matches Err(AuthError::MissingAntiForgeryToken),
                    Some(t) => (r matches Ok(c) && {
                        &&& c.is_authenticated()
                        &&& c.wf()
                        &&& (c.cookie matches Some(ck) && ck@ == raw_cookie@)
                        &&& (c.csrf_token matches Some(ct) && ct@ == t@)
                        &&& c.persist_cookies
                    }),
                }
            }
        }),
{
    match outcome {
        ProbeOutcome::Transport(msg) => Err(AuthError::Network(msg)),
        ProbeOutcome::Response { status, csrf_token } => {
            let acceptable = (200 <= status && status < 300) || status == 403;
            if !acceptable {
                Err(AuthError::InvalidCredential)
            } else {
                match csrf_token {
                    None => Err(AuthError::MissingAntiForgeryToken),
                    Some(t) => Ok(
                        SessionConfig {
                            cookie: Some(String::from_str(raw_cookie)),
                            csrf_token: Some(t),
                            persist_cookies: true,
                        },
                    ),
                }
            }
        },
    }
}

/// No reader ever observes a half-populated configuration: a coherent
/// configuration carries the session credential exactly when it carries the
/// anti-forgery token, and is anonymous exactly when it is not
/// authenticated.
pub proof fn lemma_no_partial_configuration(c: SessionConfig)
    requires
        c.wf(),
    ensures
        c.cookie is Some <==> c.csrf_token is Some,
        c.is_anonymous() <==> !c.is_authenticated(),
{
}

} // verus!
