//! Classification of request bodies against the allow-list, and the
//! per-request proxy state machine: transport-verb check, CORS pre-flight
//! short-circuit, classification, backend forwarding and response relay.

use vstd::prelude::*;
use std::sync::Arc;

verus! {

use crate::bisect_set::BisectSet;
use crate::config::{Config, share_config};
use crate::error::Error;
use crate::ordering::{StrOrd, cmp_str};
use vstd::slice::slice_to_vec;
use vstd::string::StringSliceAdditionalSpecFns;

/// Whether serde_json fails to parse these bytes as a JSON document.
pub uninterp spec fn json_malformed(body: Seq<u8>) -> bool;

/// The top-level "method" entry of the parsed document: `None` when there is
/// no such entry, `Some(None)` when it is present but not a string,
/// `Some(Some(m))` when it is the string `m`.
pub uninterp spec fn json_method(body: Seq<u8>) -> Option<Option<Seq<char>>>;

/// What classification extracted from a request body.
pub enum MethodField {
    /// Not valid JSON.
    Malformed,
    /// No top-level "method" entry.
    Missing,
    /// A "method" entry that is not a string.
    NotString,
    /// The method name.
    Name(String),
}

/// How an extraction outcome reflects the JSON document in the bytes.
pub open spec fn extraction_matches(body: Seq<u8>, r: MethodField) -> bool {
    if json_malformed(body) {
        r is Malformed
    } else {
        match json_method(body) {
            None => r is Missing,
            Some(None) => r is NotString,
            Some(Some(m)) => r matches MethodField::Name(s) && s@ == m,
        }
    }
}

/// Relies on serde_json::from_slice, serde_json::Value::get and
/// serde_json::Value::as_str: whether the bytes parse as JSON, and what the
/// top-level "method" entry holds, are functions of the bytes alone.
#[verifier::external_body]
fn extract_method(body: &[u8]) -> (r: MethodField)
    ensures
        extraction_matches(body@, r),
        (r is Malformed) <==> json_malformed(body@),
        !json_malformed(body@) ==> ((r is Missing) <==> json_method(body@) is None),
{
    match serde_json::from_slice::<serde_json::Value>(body) {
        Err(_) => MethodField::Malformed,
        Ok(v) => match v.get("method") {
            None => MethodField::Missing,
            Some(m) => match m.as_str() {
                None => MethodField::NotString,
                Some(s) => MethodField::Name(s.to_string()),
            },
        },
    }
}

/// The method name a body carries, when it is a JSON document with a string
/// "method" entry at the top level.
pub open spec fn spec_method_of(body: Seq<u8>) -> Option<Seq<char>> {
    if json_malformed(body) {
        None
    } else {
        match json_method(body) {
            Some(Some(m)) => Some(m),
            _ => None,
        }
    }
}

/// A body is admitted when it carries a method name that the allow-list
/// contains.
pub open spec fn spec_allowed(body: Seq<u8>, allowed: Seq<Seq<char>>) -> bool {
    match spec_method_of(body) {
        Some(m) => allowed.contains(m),
        None => false,
    }
}

/// The error classification reports for a body that is not admitted.
pub open spec fn spec_rejection(body: Seq<u8>, e: Error) -> bool {
    if json_malformed(body) {
        e is MalformedPayload
    } else if json_method(body) is None {
        e is MethodIsNotDefined
    } else if json_method(body) matches Some(None) {
        e is MethodIsNotString
    } else {
        e matches Error::NotAllowedMethod(n) && json_method(body) == Some(Some(n@))
    }
}

/// Parses the body, extracts and validates the top-level "method" entry, and
/// tests it against the allow-list. `Ok` exactly when the method is allowed;
/// each failure names the first check that did not hold. The body itself is
/// never modified.
pub fn filter_allowed_request(buffer: &[u8], allowed_rpcs: &BisectSet) -> (r: Result<(), Error>)
    ensures
        r is Ok <==> spec_allowed(buffer@, allowed_rpcs@),
        r matches Err(e) ==> spec_rejection(buffer@, e),
{
    match extract_method(buffer) {
        MethodField::Malformed => Err(Error::MalformedPayload),
        MethodField::Missing => Err(Error::MethodIsNotDefined),
        MethodField::NotString => Err(Error::MethodIsNotString),
        MethodField::Name(name) => {
            if allowed_rpcs.contains(name.as_str()) {
                Ok(())
            } else {
                Err(Error::NotAllowedMethod(name))
            }
        },
    }
}

/// HTTP verb of an inbound request, as far as the filter distinguishes verbs.
#[derive(Clone, Copy, Debug, PartialEq, Eq, Structural)]
pub enum Verb {
    Post,
    Options,
    Other,
}

/// Where one request stands in its strictly sequential life cycle.
#[derive(Clone, Copy, Debug, PartialEq, Eq, Structural)]
pub enum Phase {
    Received,
    CollectingBody,
    AwaitingBackend,
    CollectingBackendBody,
    Done,
}

/// A response the service instructs its caller to send.
pub struct ResponsePlan {
    pub status: u16,
    pub headers: Vec<(String, String)>,
    pub body: Vec<u8>,
}

/// A backend call the service instructs its caller to make: the original
/// body bytes, unchanged, aimed at the configured target.
pub struct ForwardPlan {
    pub target: String,
    pub body: Vec<u8>,
}

/// What the caller must do next with one request.
pub enum Action {
    /// Send this response to the caller; the request is finished.
    Respond(ResponsePlan),
    /// Drain the request body, then report it.
    CollectBody,
    /// Forward to the backend, then report its response.
    Forward(ForwardPlan),
    /// Drain the backend response body, then report it.
    CollectBackendBody,
    /// Fail the request with this error; the request is finished.
    Fail(Error),
}

/// Views of header name/value pairs.
pub open spec fn header_views(h: Seq<(String, String)>) -> Seq<(Seq<char>, Seq<char>)> {
    h.map_values(|p: (String, String)| (p.0@, p.1@))
}

/// The three CORS headers every locally built response carries, with lower-case
/// names as they travel on the wire.
pub open spec fn cors_header_views() -> Seq<(Seq<char>, Seq<char>)> {
    seq![
        ("access-control-allow-origin"@, "*"@),
        ("access-control-allow-methods"@, "POST, OPTIONS"@),
        ("access-control-allow-headers"@, "Content-Type"@),
    ]
}

/// The name of the CORS origin header.
pub open spec fn origin_header_name() -> Seq<char> {
    "access-control-allow-origin"@
}

/// The fixed body of the 405 response, as transported bytes.
pub open spec fn method_not_allowed_body() -> Seq<u8> {
    "Used HTTP Method is not allowed. POST or OPTIONS is required".spec_bytes()
}

/// Header pairs with every CORS origin entry removed.
pub open spec fn scrubbed(h: Seq<(Seq<char>, Seq<char>)>) -> Seq<(Seq<char>, Seq<char>)> {
    h.filter(|p: (Seq<char>, Seq<char>)| p.0 != origin_header_name())
}

/// Backend headers after relay: prior origin entries removed, the wildcard
/// origin appended.
pub open spec fn relayed_headers(h: Seq<(Seq<char>, Seq<char>)>) -> Seq<(Seq<char>, Seq<char>)> {
    scrubbed(h).push((origin_header_name(), "*"@))
}

/// Builds the three CORS headers of a locally built response.
fn cors_headers() -> (h: Vec<(String, String)>)
    ensures
        header_views(h@) == cors_header_views(),
{
    let mut h: Vec<(String, String)> = Vec::new();
    h.push(("access-control-allow-origin".to_owned(), "*".to_owned()));
    h.push(("access-control-allow-methods".to_owned(), "POST, OPTIONS".to_owned()));
    h.push(("access-control-allow-headers".to_owned(), "Content-Type".to_owned()));
    proof {
        assert(header_views(h@) =~= cors_header_views());
    }
    h
}

/// Removes any origin header and appends the wildcard one: how the relay
/// injects `access-control-allow-origin: *` into a backend response.
fn inject_cors_origin(headers: Vec<(String, String)>) -> (r: Vec<(String, String)>)
    ensures
        header_views(r@) == relayed_headers(header_views(headers@)),
{
    let ghost hv = header_views(headers@);
    let mut out: Vec<(String, String)> = Vec::new();
    let mut i: usize = 0;
    proof {
        reveal(Seq::filter);
        assert(hv.take(0) =~= Seq::<(Seq<char>, Seq<char>)>::empty());
        assert(header_views(out@) =~= scrubbed(hv.take(0)));
    }
    while i < headers.len()
        invariant
            i <= headers@.len(),
            hv == header_views(headers@),
            hv.len() == headers@.len(),
            header_views(out@) == scrubbed(hv.take(i as int)),
        decreases headers@.len() - i,
    {
        let ghost prev = header_views(out@);
        let keep = match cmp_str(headers[i].0.as_str(), "access-control-allow-origin") {
            StrOrd::Equal => false,
            StrOrd::Less => true,
            StrOrd::Greater => true,
        };
        if keep {
            let pair = (headers[i].0.clone(), headers[i].1.clone());
            out.push(pair);
            proof {
                assert(header_views(out@) =~= prev.push(hv[i as int]));
            }
        }
        proof {
            reveal(Seq::filter);
            assert(hv.take(i + 1).drop_last() =~= hv.take(i as int));
            assert(hv.take(i + 1).last() == hv[i as int]);
            assert(keep == (hv[i as int].0 != origin_header_name()));
            assert(header_views(out@) =~= scrubbed(hv.take(i + 1)));
        }
        i = i + 1;
    }
    proof {
        assert(hv.take(hv.len() as int) =~= hv);
    }
    out.push(("access-control-allow-origin".to_owned(), "*".to_owned()));
    proof {
        reveal(Seq::filter);
        assert(header_views(out@) =~= relayed_headers(hv));
    }
    out
}

/// One request's path through the filter: a strictly sequential state machine
/// started by `Filter::begin_request` and driven by the transport. Exactly
/// one terminal action — a `Respond` or a `Fail` — is issued per request,
/// and every step that issues one leaves the machine in `Done`, which no
/// step accepts.
pub struct RequestContext {
    config: Arc<Config>,
    seq: u64,
    phase: Phase,
    relay_status: u16,
    relay_headers: Vec<(String, String)>,
}

impl RequestContext {
    /// Current position in the request's life cycle.
    pub closed spec fn phase(&self) -> Phase {
        self.phase
    }

    /// The sequence id of the connection this request arrived on.
    pub closed spec fn seq(&self) -> u64 {
        self.seq
    }

    /// The shared configuration.
    pub closed spec fn config(&self) -> Config {
        *self.config
    }

    /// The backend status line remembered for the relay.
    pub closed spec fn relay_status(&self) -> u16 {
        self.relay_status
    }

    /// The backend headers remembered for the relay.
    pub closed spec fn relay_header_views(&self) -> Seq<(Seq<char>, Seq<char>)> {
        header_views(self.relay_headers@)
    }

    /// Exec view of the current phase, so an unverified driver can check a
    /// step's precondition before taking it.
    pub fn current_phase(&self) -> (p: Phase)
        ensures
            p == self.phase(),
    {
        self.phase
    }

    /// Transport-verb check. A verb other than POST or OPTIONS is answered
    /// 405 with the CORS headers and the fixed explanatory text; OPTIONS is
    /// the CORS pre-flight, answered 200 with an empty body; POST proceeds
    /// to body collection. The backend is not involved in either response.
    pub fn on_request(&mut self, verb: Verb) -> (a: Action)
        requires
            old(self).phase() is Received,
        ensures
            final(self).seq() == old(self).seq(),
            final(self).config() == old(self).config(),
            verb is Other ==> final(self).phase() is Done && (a matches Action::Respond(p)
                && p.status == 405 && header_views(p.headers@) == cors_header_views() && p.body@
                == method_not_allowed_body()),
            verb is Options ==> final(self).phase() is Done && (a matches Action::Respond(p)
                && p.status == 200 && header_views(p.headers@) == cors_header_views() && p.body@
                == Seq::<u8>::empty()),
            verb is Post ==> final(self).phase() is CollectingBody && a is CollectBody,
    {
        match verb {
            Verb::Other => {
                self.phase = Phase::Done;
                let body = slice_to_vec(
                    "Used HTTP Method is not allowed. POST or OPTIONS is required".as_bytes(),
                );
                Action::Respond(ResponsePlan { status: 405, headers: cors_headers(), body })
            },
            Verb::Options => {
                self.phase = Phase::Done;
                let body: Vec<u8> = Vec::new();
                Action::Respond(ResponsePlan { status: 200, headers: cors_headers(), body })
            },
            Verb::Post => {
                self.phase = Phase::CollectingBody;
                Action::CollectBody
            },
        }
    }

    /// Classification step over the collected body. Any failure is terminal
    /// and the backend is never contacted; success yields the forward plan
    /// carrying the exact body bytes, aimed at the configured target.
    pub fn on_body(&mut self, body: Vec<u8>) -> (a: Action)
        requires
            old(self).phase() is CollectingBody,
        ensures
            final(self).seq() == old(self).seq(),
            final(self).config() == old(self).config(),
            spec_allowed(body@, old(self).config().allowed_rpcs@) ==> (final(self).phase() is AwaitingBackend
                && (a matches Action::Forward(f) && f.target@ == old(self).config().forward@
                && f.body@ == body@)),
            !spec_allowed(body@, old(self).config().allowed_rpcs@) ==> (final(self).phase() is Done
                && (a matches Action::Fail(e) && spec_rejection(body@, e))),
    {
        match filter_allowed_request(body.as_slice(), &self.config.allowed_rpcs) {
            Ok(_) => {
                self.phase = Phase::AwaitingBackend;
                let target = self.config.forward.clone();
                Action::Forward(ForwardPlan { target, body })
            },
            Err(e) => {
                self.phase = Phase::Done;
                Action::Fail(e)
            },
        }
    }

    /// The backend answered: remember its status and headers and ask the
    /// caller to drain the backend body.
    pub fn on_backend_response(&mut self, status: u16, headers: Vec<(String, String)>) -> (a:
        Action)
        requires
            old(self).phase() is AwaitingBackend,
        ensures
            final(self).seq() == old(self).seq(),
            final(self).config() == old(self).config(),
            final(self).phase() is CollectingBackendBody,
            final(self).relay_status() == status,
            final(self).relay_header_views() == header_views(headers@),
            a is CollectBackendBody,
    {
        self.relay_status = status;
        self.relay_headers = headers;
        self.phase = Phase::CollectingBackendBody;
        Action::CollectBackendBody
    }

    /// Relay: respond to the caller with the backend's status, its headers
    /// with the wildcard CORS origin injected, and the drained backend body
    /// unchanged. Terminal success.
    pub fn on_backend_body(&mut self, body: Vec<u8>) -> (a: Action)
        requires
            old(self).phase() is CollectingBackendBody,
        ensures
            final(self).seq() == old(self).seq(),
            final(self).config() == old(self).config(),
            final(self).phase() is Done,
            a matches Action::Respond(p) && p.status == old(self).relay_status() && header_views(
                p.headers@,
            ) == relayed_headers(old(self).relay_header_views()) && p.body@ == body@,
    {
        let mut headers: Vec<(String, String)> = Vec::new();
        core::mem::swap(&mut headers, &mut self.relay_headers);
        let headers = inject_cors_origin(headers);
        self.phase = Phase::Done;
        Action::Respond(ResponsePlan { status: self.relay_status, headers, body })
    }

    /// An I/O failure at any suspension point — collecting the request
    /// body, calling the backend, or draining its response — is terminal
    /// and never retried.
    pub fn on_transport_failure(&mut self) -> (a: Action)
        requires
            old(self).phase() is CollectingBody || old(self).phase() is AwaitingBackend
                || old(self).phase() is CollectingBackendBody,
        ensures
            final(self).seq() == old(self).seq(),
            final(self).config() == old(self).config(),
            final(self).phase() is Done,
            a matches Action::Fail(e) && e is Transport,
    {
        self.phase = Phase::Done;
        Action::Fail(Error::Transport)
    }
}

/// Per-connection service: holds the shared configuration and the
/// connection's sequence id, and starts one state machine per request.
pub struct Filter {
    config: Arc<Config>,
    seq: u64,
}

impl Filter {
    /// The sequence id bound at creation.
    pub closed spec fn seq(&self) -> u64 {
        self.seq
    }

    /// The shared configuration bound at creation.
    pub closed spec fn config(&self) -> Config {
        *self.config
    }

    pub fn new(config: Arc<Config>, seq: u64) -> (r: Filter)
        ensures
            r.seq() == seq,
            r.config() == *config,
    {
        Filter { config, seq }
    }

    /// The sequence id, for log correlation by an unverified driver.
    pub fn sequence_id(&self) -> (n: u64)
        ensures
            n == self.seq(),
    {
        self.seq
    }

    /// Starts the state machine for one inbound request.
    pub fn begin_request(&self) -> (r: RequestContext)
        ensures
            r.phase() is Received,
            r.seq() == self.seq(),
            r.config() == self.config(),
    {
        RequestContext {
            config: share_config(&self.config),
            seq: self.seq,
            phase: Phase::Received,
            relay_status: 0,
            relay_headers: Vec::new(),
        }
    }
}

} // verus!
