//! The scheme/authority resolver: the pure mapping from a configured logical
//! scheme to the concrete scheme value used when building the outbound URI.

use vstd::prelude::*;

verus! {

/// The logical scheme used for plain HTTP forwarding.
#[derive(Clone, Copy, PartialEq, Eq, Structural, Debug)]
pub enum HttpScheme {
    Http,
    Https,
}

/// The logical scheme used when bridging a protocol upgrade; configurable
/// independently of the plain HTTP scheme.
#[derive(Clone, Copy, PartialEq, Eq, Structural, Debug)]
pub enum WebSocketScheme {
    Ws,
    Wss,
}

/// Whether a logical scheme is a secure one (needs the secure-scheme
/// capability at construction time).
pub open spec fn http_scheme_secure(s: HttpScheme) -> bool {
    s is Https
}

/// Whether an upgrade scheme is a secure one.
pub open spec fn web_socket_scheme_secure(s: WebSocketScheme) -> bool {
    s is Wss
}

/// The concrete scheme value for a logical HTTP scheme: `"http"` or
/// `"https"` in ASCII.
pub open spec fn http_scheme_value(s: HttpScheme) -> Seq<u8> {
    match s {
        HttpScheme::Http => seq![104u8, 116u8, 116u8, 112u8],
        HttpScheme::Https => seq![104u8, 116u8, 116u8, 112u8, 115u8],
    }
}

/// The concrete scheme value for an upgrade scheme: `"ws"` or `"wss"` in
/// ASCII.
pub open spec fn web_socket_scheme_value(s: WebSocketScheme) -> Seq<u8> {
    match s {
        WebSocketScheme::Ws => seq![119u8, 115u8],
        WebSocketScheme::Wss => seq![119u8, 115u8, 115u8],
    }
}

/// Resolve a logical HTTP scheme to its concrete scheme value.
pub fn resolve_http_scheme(s: HttpScheme) -> (r: Vec<u8>)
    ensures
        r@ == http_scheme_value(s),
{
    let mut v: Vec<u8> = Vec::new();
    v.push(104);
    v.push(116);
    v.push(116);
    v.push(112);
    match s {
        HttpScheme::Http => {},
        HttpScheme::Https => {
            v.push(115);
        },
    }
    proof {
        assert(v@ =~= http_scheme_value(s));
    }
    v
}

/// Resolve an upgrade scheme to its concrete scheme value.
pub fn resolve_web_socket_scheme(s: WebSocketScheme) -> (r: Vec<u8>)
    ensures
        r@ == web_socket_scheme_value(s),
{
    let mut v: Vec<u8> = Vec::new();
    v.push(119);
    v.push(115);
    match s {
        WebSocketScheme::Ws => {},
        WebSocketScheme::Wss => {
            v.push(115);
        },
    }
    proof {
        assert(v@ =~= web_socket_scheme_value(s));
    }
    v
}

} // verus!
