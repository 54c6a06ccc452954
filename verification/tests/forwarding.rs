use strangler::config::{Capabilities, ForwardingPolicy, ForwardingTarget, Strangler};
use strangler::forward::{
    backend_unavailable_response, forward_response, invariant_violation_response, ForwardPlan,
};
use strangler::headers::Headers;
use strangler::message::{BackendUnavailable, Request, Response};
use strangler::scheme::HttpScheme;
use strangler::scheme::WebSocketScheme;
use strangler::trace::TraceContext;
use strangler::upgrade::upgrade_directive;

fn all_capabilities() -> Capabilities {
    Capabilities { secure_schemes: true, upgrades: true, tracing_propagation: true }
}

fn plain_policy(rewrite_host_header: bool) -> ForwardingPolicy {
    ForwardingPolicy {
        rewrite_host_header,
        upgrade_enabled: false,
        tracing_propagation_enabled: false,
    }
}

fn target_9000() -> ForwardingTarget {
    ForwardingTarget {
        authority: b"127.0.0.1:9000".to_vec(),
        http_scheme: HttpScheme::Http,
        upgrade_scheme: Some(WebSocketScheme::Ws),
    }
}

fn hello_request(body: Vec<u8>) -> Request<Vec<u8>> {
    let mut headers = Headers::new();
    headers.push(b"host".to_vec(), b"something.com".to_vec());
    Request {
        method: b"GET".to_vec(),
        path_and_query: Some(b"/hello".to_vec()),
        headers,
        body,
    }
}

fn expect_plain(plan: ForwardPlan<Vec<u8>>) -> strangler::message::OutboundRequest<Vec<u8>> {
    match plan {
        ForwardPlan::Plain(o) => o,
        ForwardPlan::Upgrade(_) => panic!("request was claimed as an upgrade"),
        ForwardPlan::MissingPathAndQuery => panic!("request was treated as malformed"),
    }
}

#[test]
fn no_header_rewriting() {
    let strangler = Strangler::new(target_9000(), plain_policy(false), all_capabilities())
        .expect("configuration should be accepted");
    let outbound = expect_plain(strangler.plan(hello_request(Vec::new()), None));
    assert_eq!(outbound.scheme, b"http".to_vec());
    assert_eq!(outbound.authority, b"127.0.0.1:9000".to_vec());
    assert_eq!(outbound.path_and_query, b"/hello".to_vec());
    assert_eq!(outbound.method, b"GET".to_vec());
    let host = outbound.headers.get(&b"host".to_vec());
    assert_eq!(host, Some(&b"something.com".to_vec()));
    let backend = Response { status: 200, headers: Headers::new(), body: Vec::<u8>::new() };
    let client = forward_response(Ok(backend), Vec::new());
    assert_eq!(client.status, 200);
}

#[test]
fn header_rewriting() {
    let strangler = Strangler::new(target_9000(), plain_policy(true), all_capabilities())
        .expect("configuration should be accepted");
    let outbound = expect_plain(strangler.plan(hello_request(Vec::new()), None));
    let host = outbound.headers.get(&b"host".to_vec());
    assert_eq!(host, Some(&b"127.0.0.1:9000".to_vec()));
    let backend = Response { status: 200, headers: Headers::new(), body: Vec::<u8>::new() };
    let client = forward_response(Ok(backend), Vec::new());
    assert_eq!(client.status, 200);
}

#[test]
fn host_rewritten_even_when_absent() {
    let strangler = Strangler::new(target_9000(), plain_policy(true), all_capabilities()).unwrap();
    let request = Request {
        method: b"GET".to_vec(),
        path_and_query: Some(b"/hello".to_vec()),
        headers: Headers::new(),
        body: Vec::<u8>::new(),
    };
    let outbound = expect_plain(strangler.plan(request, None));
    assert_eq!(outbound.headers.get(&b"host".to_vec()), Some(&b"127.0.0.1:9000".to_vec()));
}

#[test]
fn path_and_query_forwarded_exactly() {
    let strangler = Strangler::new(target_9000(), plain_policy(false), all_capabilities()).unwrap();
    let mut request = hello_request(Vec::new());
    request.path_and_query = Some(b"/a//b/?q=1%2Fx&empty=".to_vec());
    let outbound = expect_plain(strangler.plan(request, None));
    assert_eq!(outbound.path_and_query, b"/a//b/?q=1%2Fx&empty=".to_vec());
}

#[test]
fn missing_path_and_query_is_flagged() {
    let strangler = Strangler::new(target_9000(), plain_policy(false), all_capabilities()).unwrap();
    let mut request = hello_request(Vec::new());
    request.path_and_query = None;
    match strangler.plan(request, None) {
        ForwardPlan::MissingPathAndQuery => {}
        _ => panic!("a request without path-and-query must be flagged"),
    }
    let response = invariant_violation_response(Vec::<u8>::new());
    assert_eq!(response.status, 500);
}

#[test]
fn backend_response_passes_through_verbatim() {
    let mut backend_headers = Headers::new();
    backend_headers.push(b"Content-Type".to_vec(), b"text/plain".to_vec());
    backend_headers.push(b"Set-Cookie".to_vec(), b"a=1".to_vec());
    backend_headers.push(b"Set-Cookie".to_vec(), b"b=2".to_vec());
    let backend = Response {
        status: 418,
        headers: backend_headers,
        body: b"tea".to_vec(),
    };
    let client = forward_response(Ok(backend), Vec::new());
    assert_eq!(client.status, 418);
    assert_eq!(client.headers.len(), 3);
    let (name0, value0) = client.headers.entry_at(0);
    assert_eq!(name0, &b"Content-Type".to_vec());
    assert_eq!(value0, &b"text/plain".to_vec());
    let (name1, value1) = client.headers.entry_at(1);
    assert_eq!(name1, &b"Set-Cookie".to_vec());
    assert_eq!(value1, &b"a=1".to_vec());
    let (name2, value2) = client.headers.entry_at(2);
    assert_eq!(name2, &b"Set-Cookie".to_vec());
    assert_eq!(value2, &b"b=2".to_vec());
    assert_eq!(client.body, b"tea".to_vec());
}

#[test]
fn backend_unreachable_yields_gateway_error() {
    let client = forward_response(Err(BackendUnavailable), Vec::<u8>::new());
    assert_eq!(client.status, 502);
    assert_eq!(client.headers.len(), 0);
    let direct = backend_unavailable_response(Vec::<u8>::new());
    assert_eq!(direct.status, 502);
}

fn upgrade_request() -> Request<Vec<u8>> {
    let mut headers = Headers::new();
    headers.push(b"host".to_vec(), b"something.com".to_vec());
    headers.push(b"Connection".to_vec(), b"keep-alive, Upgrade".to_vec());
    headers.push(b"Upgrade".to_vec(), b"WebSocket".to_vec());
    Request {
        method: b"GET".to_vec(),
        path_and_query: Some(b"/socket".to_vec()),
        headers,
        body: Vec::new(),
    }
}

#[test]
fn upgrade_claimed_when_enabled() {
    let policy = ForwardingPolicy {
        rewrite_host_header: false,
        upgrade_enabled: true,
        tracing_propagation_enabled: false,
    };
    let strangler = Strangler::new(target_9000(), policy, all_capabilities()).unwrap();
    match strangler.plan(upgrade_request(), None) {
        ForwardPlan::Upgrade(u) => {
            assert_eq!(u.scheme, b"ws".to_vec());
            assert_eq!(u.authority, b"127.0.0.1:9000".to_vec());
            assert_eq!(u.request.path_and_query, Some(b"/socket".to_vec()));
        }
        _ => panic!("an upgrade-shaped request must be claimed when upgrades are enabled"),
    }
    let handshake = Response { status: 101, headers: Headers::new(), body: Vec::<u8>::new() };
    let directive = upgrade_directive(Ok(handshake), Vec::new());
    assert!(directive.bridge);
    assert_eq!(directive.response.status, 101);
}

#[test]
fn upgrade_falls_through_when_disabled() {
    let strangler = Strangler::new(target_9000(), plain_policy(false), all_capabilities()).unwrap();
    let outbound = expect_plain(strangler.plan(upgrade_request(), None));
    assert_eq!(outbound.headers.get(&b"connection".to_vec()), Some(&b"keep-alive, Upgrade".to_vec()));
    assert_eq!(outbound.headers.get(&b"upgrade".to_vec()), Some(&b"WebSocket".to_vec()));
    assert_eq!(outbound.headers.get(&b"host".to_vec()), Some(&b"something.com".to_vec()));
}

#[test]
fn upgrade_refusal_conveyed_without_bridging() {
    let mut headers = Headers::new();
    headers.push(b"x-reason".to_vec(), b"nope".to_vec());
    let handshake = Response { status: 403, headers, body: Vec::<u8>::new() };
    let directive = upgrade_directive(Ok(handshake), Vec::new());
    assert!(!directive.bridge);
    assert_eq!(directive.response.status, 403);
    assert_eq!(directive.response.headers.get(&b"x-reason".to_vec()), Some(&b"nope".to_vec()));
}

#[test]
fn upgrade_handshake_failure_yields_gateway_error() {
    let directive = upgrade_directive(Err(BackendUnavailable), Vec::<u8>::new());
    assert!(!directive.bridge);
    assert_eq!(directive.response.status, 502);
}

#[test]
fn tracing_context_injected_when_enabled() {
    let policy = ForwardingPolicy {
        rewrite_host_header: false,
        upgrade_enabled: false,
        tracing_propagation_enabled: true,
    };
    let strangler = Strangler::new(target_9000(), policy, all_capabilities()).unwrap();
    let context = TraceContext {
        traceparent: b"00-0af7651916cd43dd8448eb211c80319c-b7ad6b7169203331-01".to_vec(),
    };
    let outbound = expect_plain(strangler.plan(hello_request(Vec::new()), Some(context)));
    assert_eq!(
        outbound.headers.get(&b"traceparent".to_vec()),
        Some(&b"00-0af7651916cd43dd8448eb211c80319c-b7ad6b7169203331-01".to_vec())
    );
    // Pure addition: the unrelated headers are untouched.
    assert_eq!(outbound.headers.get(&b"host".to_vec()), Some(&b"something.com".to_vec()));
}

#[test]
fn tracing_without_context_is_a_no_op() {
    let policy = ForwardingPolicy {
        rewrite_host_header: false,
        upgrade_enabled: false,
        tracing_propagation_enabled: true,
    };
    let strangler = Strangler::new(target_9000(), policy, all_capabilities()).unwrap();
    let outbound = expect_plain(strangler.plan(hello_request(Vec::new()), None));
    assert_eq!(outbound.headers.len(), 1);
    assert_eq!(outbound.headers.get(&b"traceparent".to_vec()), None);
}

#[test]
fn tracing_context_ignored_when_disabled() {
    let strangler = Strangler::new(target_9000(), plain_policy(false), all_capabilities()).unwrap();
    let context = TraceContext { traceparent: b"00-abc-def-01".to_vec() };
    let outbound = expect_plain(strangler.plan(hello_request(Vec::new()), Some(context)));
    assert_eq!(outbound.headers.get(&b"traceparent".to_vec()), None);
    assert_eq!(outbound.headers.len(), 1);
}

#[test]
fn secure_scheme_resolved_for_outbound_uri() {
    let target = ForwardingTarget {
        authority: b"backend.internal:8443".to_vec(),
        http_scheme: HttpScheme::Https,
        upgrade_scheme: None,
    };
    let strangler = Strangler::new(target, plain_policy(false), all_capabilities()).unwrap();
    let outbound = expect_plain(strangler.plan(hello_request(Vec::new()), None));
    assert_eq!(outbound.scheme, b"https".to_vec());
    assert_eq!(outbound.authority, b"backend.internal:8443".to_vec());
}

#[test]
fn body_passes_through_untouched() {
    let strangler = Strangler::new(target_9000(), plain_policy(true), all_capabilities()).unwrap();
    let body = vec![0u8, 159, 146, 150, 255];
    let outbound = expect_plain(strangler.plan(hello_request(body.clone()), None));
    assert_eq!(outbound.body, body);
}
