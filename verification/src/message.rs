//! The request and response values the forwarding core works on. Bodies are
//! opaque to the core: they are carried through as a type parameter and are
//! never inspected or altered.

use vstd::prelude::*;

use crate::headers::Headers;

verus! {

/// The status of a response that switches protocols: the backend accepted an
/// upgrade handshake.
pub const SWITCHING_PROTOCOLS: u16 = 101;

/// The status surfaced to the client when the inbound request violates an
/// internal invariant the outer server is contracted to uphold.
pub const INTERNAL_SERVER_ERROR: u16 = 500;

/// The gateway-error status surfaced to the client when the transport could
/// not deliver the outbound request.
pub const BAD_GATEWAY: u16 = 502;

/// An inbound request as handed over by the outer server, already parsed:
/// method, the path-and-query component of the URI (the inbound scheme and
/// authority are discarded), the header mapping, and an opaque body.
pub struct Request<B> {
    pub method: Vec<u8>,
    pub path_and_query: Option<Vec<u8>>,
    pub headers: Headers,
    pub body: B,
}

/// A response: the backend's reply, or the client-facing response assembled
/// from it.
pub struct Response<B> {
    pub status: u16,
    pub headers: Headers,
    pub body: B,
}

/// The outbound request of the plain forwarding path: the rewritten URI as
/// its three components, the (possibly rewritten) header mapping, and the
/// method and body passed through from the inbound request.
pub struct OutboundRequest<B> {
    pub scheme: Vec<u8>,
    pub authority: Vec<u8>,
    pub path_and_query: Vec<u8>,
    pub method: Vec<u8>,
    pub headers: Headers,
    pub body: B,
}

/// The transport collaborator failed to deliver a request or a handshake
/// (connection refused, timeout, protocol fault at the transport layer).
/// A per-request condition: it is turned into a gateway-error response,
/// never allowed to crash the handler.
pub struct BackendUnavailable;

} // verus!
