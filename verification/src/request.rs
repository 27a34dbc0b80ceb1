//! Logical request descriptions and the outbound form handed to the
//! transport.
//!
//! A caller describes a request by method, host-relative target, optional
//! extra headers and optional body. Dispatch turns that description, together
//! with the current session configuration, into an outbound request: an
//! absolute `https` URL, the session's default headers followed by the
//! request-specific ones, and the body (empty when none was given).
//!
//! Header merging is additive: the session's default headers come first and
//! request-specific headers are appended after them, never dropped.

use vstd::prelude::*;

use crate::session::SessionConfig;

verus! {

/// An HTTP method, as the transport will send it.
#[derive(Clone, Copy, Debug, PartialEq, Eq, Structural)]
pub enum Method {
    Get,
    Post,
    Put,
    Delete,
    Patch,
    Head,
}

/// A caller's logical request: method, target (host plus path, without a
/// scheme), optional extra headers, optional serialized body.
#[derive(Debug)]
pub struct HttpRequest {
    pub method: Method,
    pub url: String,
    pub headers: Option<Vec<(String, String)>>,
    pub body: Option<String>,
}

/// The fully assembled request handed to the transport: absolute URL, the
/// complete header list, and the body to send verbatim.
#[derive(Debug)]
pub struct OutboundRequest {
    pub method: Method,
    pub url: String,
    pub headers: Vec<(String, String)>,
    pub body: String,
}

/// The absolute form of a host-relative target: the fixed secure scheme
/// prepended to it.
pub open spec fn spec_full_url(target: Seq<char>) -> Seq<char> {
    "https://"@ + target
}

/// The request-specific headers of a description, as a sequence (empty when
/// none were given).
pub open spec fn spec_extra_headers(headers: Option<Vec<(String, String)>>) -> Seq<
    (String, String),
> {
    match headers {
        Some(h) => h@,
        None => Seq::empty(),
    }
}

/// How an outbound header list `hs` relates to the session configuration `c`
/// and the request-specific headers `extra`: the session's default headers
/// (none when anonymous; the cookie and anti-forgery pair when
/// authenticated) followed by `extra`.
pub open spec fn spec_outbound_headers_ok(
    c: SessionConfig,
    extra: Seq<(String, String)>,
    hs: Seq<(String, String)>,
) -> bool {
    if c.is_authenticated() {
        &&& hs.len() == 2 + extra.len()
        &&& hs[0].0@ == "Cookie"@
        &&& (c.cookie matches Some(ck) && hs[0].1@ == ck@)
        &&& hs[1].0@ == "X-CSRF-TOKEN"@
        &&& (c.csrf_token matches Some(ct) && hs[1].1@ == ct@)
        &&& hs.skip(2) == extra
    } else {
        hs == extra
    }
}

/// Assembles the outbound request for `req` under the configuration
/// `config`: absolute URL, session default headers followed by the
/// request-specific ones, and the body verbatim (empty when none).
pub fn build_outbound(config: &SessionConfig, req: HttpRequest) -> (r: OutboundRequest)
    requires
        config.wf(),
    ensures
        r.method == req.method,
        r.url@ == spec_full_url(req.url@),
        spec_outbound_headers_ok(*config, spec_extra_headers(req.headers), r.headers@),
        (req.body matches Some(b) ==> r.body@ == b@),
        (req.body is None ==> r.body@ == Seq::<char>::empty()),
{
    let mut url = String::from_str("https://");
    url.append(req.url.as_str());

    let mut headers = config.header_pairs();
    let ghost base = headers@;
    let extra_opt = req.headers;
    match extra_opt {
        Some(extra) => {
            let mut i: usize = 0;
            let n: usize = extra.len();
            while i < n
                invariant
                    i <= n,
                    n == extra@.len(),
                    headers@.len() == base.len() + i,
                    headers@.subrange(0, base.len() as int) =~= base,
                    headers@.skip(base.len() as int) =~= extra@.subrange(0, i as int),
                decreases n - i,
            {
                let name = extra[i].0.clone();
                let value = extra[i].1.clone();
                headers.push((name, value));
                proof {
                    assert(headers@.subrange(0, base.len() as int) =~= base);
                    assert(headers@.skip(base.len() as int) =~= extra@.subrange(
                        0,
                        i as int + 1,
                    ));
                }
                i = i + 1;
            }
            proof {
                assert(extra@.subrange(0, n as int) =~= extra@);
            }
        },
        None => {},
    }

    let body = match req.body {
        Some(b) => b,
        None => String::new(),
    };

    proof {
        if config.is_authenticated() {
            assert(headers@.skip(2) =~= spec_extra_headers(extra_opt));
        } else {
            assert(headers@ =~= spec_extra_headers(extra_opt));
        }
    }

    OutboundRequest { method: req.method, url, headers, body }
}

/// An authenticated configuration always contributes both credentials to the
/// outbound headers: a `Cookie` pair holding the (non-empty) session
/// credential and an anti-forgery pair holding the derived token, whatever
/// request-specific headers were added.
pub proof fn lemma_authenticated_headers_complete(
    c: SessionConfig,
    extra: Seq<(String, String)>,
    hs: Seq<(String, String)>,
)
    requires
        c.wf(),
        c.is_authenticated(),
        spec_outbound_headers_ok(c, extra, hs),
    ensures
        exists|i: int|
            0 <= i < hs.len() && (#[trigger] hs[i].0@) == "Cookie"@ && hs[i].1@.len() > 0,
        exists|i: int| 0 <= i < hs.len() && (#[trigger] hs[i].0@) == "X-CSRF-TOKEN"@,
{
    assert(hs[0].0@ == "Cookie"@ && hs[0].1@.len() > 0);
    assert(hs[1].0@ == "X-CSRF-TOKEN"@);
}

/// An anonymous configuration contributes no headers at all: the outbound
/// headers are exactly the request-specific ones, so a request that adds
/// none carries neither a cookie nor an anti-forgery token.
pub proof fn lemma_anonymous_headers_bare(
    c: SessionConfig,
    extra: Seq<(String, String)>,
    hs: Seq<(String, String)>,
)
    requires
        c.wf(),
        c.is_anonymous(),
        spec_outbound_headers_ok(c, extra, hs),
    ensures
        hs == extra,
        extra.len() == 0 ==> hs.len() == 0,
{
}

} // verus!
