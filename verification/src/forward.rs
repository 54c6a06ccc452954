//! The forwarder: for one inbound request it decides the full lifecycle —
//! upgrade detection, URI retargeting, host-header rewriting, tracing
//! injection — and assembles the client-facing response from whatever the
//! transport brought back.

use vstd::prelude::*;

use crate::ascii::lower;
use crate::config::Strangler;
use crate::headers::{
    clone_bytes, key_matches, lemma_lookup_set_other, lemma_lookup_set_same,
    lemma_set_value_entrywise, lookup, set_value, Headers,
};
use crate::message::{
    BackendUnavailable, OutboundRequest, Request, Response, BAD_GATEWAY, INTERNAL_SERVER_ERROR,
};
use crate::names::{host_key, host_key_bytes, traceparent_key};
use crate::scheme::{http_scheme_value, web_socket_scheme_value};
use crate::trace::{inject_spec, inject_trace_context, trace_view, TraceContext};
use crate::upgrade::{is_upgrade, is_upgrade_request};

verus! {

/// An upgrade claim: connect to the backend with the upgrade scheme and this
/// authority, and run the handshake for the request as it came in.
pub struct UpgradeForward<B> {
    pub scheme: Vec<u8>,
    pub authority: Vec<u8>,
    pub request: Request<B>,
}

/// What the forwarder decides for one inbound request, before any contact
/// with the backend.
pub enum ForwardPlan<B> {
    /// The upgrade handler claims the request; it owns the rest of the
    /// lifecycle.
    Upgrade(UpgradeForward<B>),
    /// The plain path: dispatch this outbound request and assemble the
    /// client response from the reply.
    Plain(OutboundRequest<B>),
    /// The inbound request lacks a path-and-query component, which the outer
    /// server is contracted never to produce.
    MissingPathAndQuery,
}

/// The outbound header set of the plain path: the `host` header is rewritten
/// to the target authority when the policy says so, then the tracing
/// propagator runs when enabled.
pub open spec fn outbound_headers(
    h: Seq<(Seq<u8>, Seq<u8>)>,
    rewrite_host: bool,
    authority: Seq<u8>,
    tracing: bool,
    t: Option<Seq<u8>>,
) -> Seq<(Seq<u8>, Seq<u8>)> {
    let rewritten = if rewrite_host {
        set_value(h, host_key(), authority)
    } else {
        h
    };
    if tracing {
        inject_spec(rewritten, t)
    } else {
        rewritten
    }
}

impl Strangler {
    /// Decide the lifecycle of one inbound request: an upgrade claim, a plain
    /// outbound request with the URI retargeted to the configured authority
    /// and scheme and the headers rewritten per policy, or a fault for a
    /// request without a path-and-query component.
    pub fn plan<B>(&self, req: Request<B>, context: Option<TraceContext>) -> (p: ForwardPlan<B>)
        requires
            self.wf(),
        ensures
            (p is Upgrade) == (self.policy.upgrade_enabled && is_upgrade(req.headers@)),
            p matches ForwardPlan::Upgrade(u) ==> {
                &&& self.target.upgrade_scheme matches Some(w) && u.scheme@
                    == web_socket_scheme_value(w)
                &&& u.authority@ == self.target.authority@
                &&& u.request == req
            },
            (p is MissingPathAndQuery) == (!(self.policy.upgrade_enabled && is_upgrade(
                req.headers@,
            )) && req.path_and_query is None),
            p matches ForwardPlan::Plain(o) ==> {
                &&& req.path_and_query matches Some(pq) && o.path_and_query == pq
                &&& o.method == req.method
                &&& o.body == req.body
                &&& o.scheme@ == http_scheme_value(self.target.http_scheme)
                &&& o.authority@ == self.target.authority@
                &&& o.headers@ == outbound_headers(
                    req.headers@,
                    self.policy.rewrite_host_header,
                    self.target.authority@,
                    self.policy.tracing_propagation_enabled,
                    trace_view(context),
                )
            },
    {
        if self.policy.upgrade_enabled && is_upgrade_request(&req.headers) {
            let w = self.target.upgrade_scheme.unwrap();
            return ForwardPlan::Upgrade(UpgradeForward {
                scheme: crate::scheme::resolve_web_socket_scheme(w),
                authority: clone_bytes(&self.target.authority),
                request: req,
            });
        }
        let Request { method, path_and_query, headers, body } = req;
        let pq = match path_and_query {
            Some(pq) => pq,
            None => {
                return ForwardPlan::MissingPathAndQuery;
            },
        };
        let mut headers = headers;
        if self.policy.rewrite_host_header {
            headers.set(host_key_bytes(), clone_bytes(&self.target.authority));
        }
        if self.policy.tracing_propagation_enabled {
            inject_trace_context(&mut headers, context);
        }
        ForwardPlan::Plain(
            OutboundRequest {
                scheme: crate::scheme::resolve_http_scheme(self.target.http_scheme),
                authority: clone_bytes(&self.target.authority),
                path_and_query: pq,
                method,
                headers,
                body,
            },
        )
    }
}

/// Assemble the client-facing response from the backend's reply: the status
/// and the full header set are copied verbatim into a freshly built response,
/// and the body streams through unaltered.
pub fn assemble_client_response<B>(backend: Response<B>) -> (r: Response<B>)
    ensures
        r.status == backend.status,
        r.headers@ == backend.headers@,
        r.body == backend.body,
{
    let Response { status, headers, body } = backend;
    Response { status, headers, body }
}

/// The gateway-error response the client sees when the transport could not
/// deliver the outbound request.
pub fn backend_unavailable_response<B>(empty_body: B) -> (r: Response<B>)
    ensures
        r.status == BAD_GATEWAY,
        r.headers@ == Seq::<(Seq<u8>, Seq<u8>)>::empty(),
        r.body == empty_body,
{
    Response { status: BAD_GATEWAY, headers: Headers::new(), body: empty_body }
}

/// The generic server-error response for an inbound request that violates an
/// internal invariant (no path-and-query component).
pub fn invariant_violation_response<B>(empty_body: B) -> (r: Response<B>)
    ensures
        r.status == INTERNAL_SERVER_ERROR,
        r.headers@ == Seq::<(Seq<u8>, Seq<u8>)>::empty(),
        r.body == empty_body,
{
    Response { status: INTERNAL_SERVER_ERROR, headers: Headers::new(), body: empty_body }
}

/// The plain path's epilogue: what the client receives for each outcome of
/// the transport dispatch. A backend reply is passed on byte-identically; a
/// transport failure becomes a gateway error, never a crash.
pub fn forward_response<B>(
    outcome: Result<Response<B>, BackendUnavailable>,
    empty_body: B,
) -> (r: Response<B>)
    ensures
        outcome matches Ok(b) ==> {
            &&& r.status == b.status
            &&& r.headers@ == b.headers@
            &&& r.body == b.body
        },
        outcome is Err ==> {
            &&& r.status == BAD_GATEWAY
            &&& r.headers@ == Seq::<(Seq<u8>, Seq<u8>)>::empty()
            &&& r.body == empty_body
        },
{
    match outcome {
        Ok(b) => assemble_client_response(b),
        Err(BackendUnavailable) => backend_unavailable_response(empty_body),
    }
}

/// The `host` header name and the trace-correlation header name denote
/// different fields.
pub proof fn lemma_host_traceparent_distinct()
    ensures
        !key_matches(traceparent_key(), host_key()),
        !key_matches(host_key(), traceparent_key()),
{
    assert(lower(traceparent_key()).len() == 11);
    assert(lower(host_key()).len() == 4);
}

/// Without host rewriting, the backend observes the original `host` header
/// byte-for-byte, whatever the tracing propagator does.
pub proof fn lemma_host_preserved_without_rewrite(
    h: Seq<(Seq<u8>, Seq<u8>)>,
    authority: Seq<u8>,
    tracing: bool,
    t: Option<Seq<u8>>,
)
    ensures
        lookup(outbound_headers(h, false, authority, tracing, t), host_key()) == lookup(
            h,
            host_key(),
        ),
{
    lemma_host_traceparent_distinct();
    if tracing {
        match t {
            Some(v) => lemma_lookup_set_other(h, traceparent_key(), v, host_key()),
            None => {},
        }
    }
}

/// With host rewriting, the backend observes a `host` header equal to the
/// configured authority, regardless of the original value.
pub proof fn lemma_host_rewritten(
    h: Seq<(Seq<u8>, Seq<u8>)>,
    authority: Seq<u8>,
    tracing: bool,
    t: Option<Seq<u8>>,
)
    ensures
        lookup(outbound_headers(h, true, authority, tracing, t), host_key()) == Some(authority),
{
    lemma_host_traceparent_distinct();
    lemma_lookup_set_same(h, host_key(), authority);
    if tracing {
        match t {
            Some(v) => lemma_lookup_set_other(
                set_value(h, host_key(), authority),
                traceparent_key(),
                v,
                host_key(),
            ),
            None => {},
        }
    }
}

/// Every header other than `host` and the trace-correlation header passes
/// through the plain path unchanged, whatever the policy.
pub proof fn lemma_unrelated_headers_preserved(
    h: Seq<(Seq<u8>, Seq<u8>)>,
    rewrite_host: bool,
    authority: Seq<u8>,
    tracing: bool,
    t: Option<Seq<u8>>,
    name: Seq<u8>,
)
    requires
        !key_matches(name, host_key()),
        !key_matches(name, traceparent_key()),
    ensures
        lookup(outbound_headers(h, rewrite_host, authority, tracing, t), name) == lookup(h, name),
{
    let rewritten = if rewrite_host {
        set_value(h, host_key(), authority)
    } else {
        h
    };
    if rewrite_host {
        lemma_lookup_set_other(h, host_key(), authority, name);
    }
    if tracing {
        match t {
            Some(v) => lemma_lookup_set_other(rewritten, traceparent_key(), v, name),
            None => {},
        }
    }
}

/// The outbound header set is a superset of the inbound one: every inbound
/// field is still there, in place, under its name, and a field whose name is
/// neither `host` nor the trace-correlation header keeps its value too.
pub proof fn lemma_header_set_superset(
    h: Seq<(Seq<u8>, Seq<u8>)>,
    rewrite_host: bool,
    authority: Seq<u8>,
    tracing: bool,
    t: Option<Seq<u8>>,
)
    ensures
        outbound_headers(h, rewrite_host, authority, tracing, t).len() >= h.len(),
        forall|i: int|
            0 <= i < h.len() ==> (#[trigger] outbound_headers(
                h,
                rewrite_host,
                authority,
                tracing,
                t,
            )[i]).0 == h[i].0,
        forall|i: int|
            0 <= i < h.len() && !key_matches(h[i].0, host_key()) && !key_matches(
                h[i].0,
                traceparent_key(),
            ) ==> #[trigger] outbound_headers(h, rewrite_host, authority, tracing, t)[i] == h[i],
{
    let rewritten = if rewrite_host {
        set_value(h, host_key(), authority)
    } else {
        h
    };
    if rewrite_host {
        lemma_set_value_entrywise(h, host_key(), authority);
    }
    if tracing {
        match t {
            Some(v) => lemma_set_value_entrywise(rewritten, traceparent_key(), v),
            None => {},
        }
    }
}

/// When tracing propagation is enabled and a context is active, the outbound
/// header set carries its trace-correlation value.
pub proof fn lemma_trace_context_injected(
    h: Seq<(Seq<u8>, Seq<u8>)>,
    rewrite_host: bool,
    authority: Seq<u8>,
    v: Seq<u8>,
)
    ensures
        lookup(outbound_headers(h, rewrite_host, authority, true, Some(v)), traceparent_key())
            == Some(v),
{
    let rewritten = if rewrite_host {
        set_value(h, host_key(), authority)
    } else {
        h
    };
    lemma_lookup_set_same(rewritten, traceparent_key(), v);
}

} // verus!
