//! The upgrade handler: detection of protocol-upgrade requests, and the
//! decision taken once the backend has answered (or failed) the handshake.
//! The bridging of bytes between the two connections is the host's work.

use vstd::prelude::*;

use crate::ascii::{bytes_eq, contains_seq, contains_subseq, lower, to_lower};
use crate::headers::{Headers, lookup};
use crate::message::{BackendUnavailable, Response, BAD_GATEWAY, SWITCHING_PROTOCOLS};
use crate::names::{
    connection_key, connection_key_bytes, upgrade_token, upgrade_token_bytes, websocket_token,
    websocket_token_bytes,
};

verus! {

/// A request is upgrade-shaped when it carries the standard connection-
/// upgrade negotiation headers asking for the streaming-duplex protocol:
/// a `connection` option list naming `upgrade`, and an `upgrade` header
/// naming `websocket` (both read case-insensitively).
pub open spec fn is_upgrade(h: Seq<(Seq<u8>, Seq<u8>)>) -> bool {
    &&& lookup(h, connection_key()) matches Some(c) && contains_seq(lower(c), upgrade_token())
    &&& lookup(h, upgrade_token()) matches Some(u) && lower(u) == websocket_token()
}

/// Whether an inbound request negotiates a protocol upgrade.
pub fn is_upgrade_request(headers: &Headers) -> (r: bool)
    ensures
        r == is_upgrade(headers@),
{
    let connection_ok = match headers.get(&connection_key_bytes()) {
        Some(c) => contains_subseq(&to_lower(c), &upgrade_token_bytes()),
        None => false,
    };
    if !connection_ok {
        return false;
    }
    match headers.get(&upgrade_token_bytes()) {
        Some(u) => bytes_eq(&to_lower(u), &websocket_token_bytes()),
        None => false,
    }
}

/// What the upgrade handler does once the backend's handshake reply (or the
/// transport's failure) is known: the response handed to the client, and
/// whether the two connections are to be bridged.
pub struct UpgradeDirective<B> {
    pub response: Response<B>,
    pub bridge: bool,
}

/// Decide the rest of an upgrade lifecycle from the handshake outcome. An
/// accepted handshake is passed to the client and the connection is bridged;
/// a refusal is conveyed as the backend sent it, without bridging; a failed
/// handshake becomes a gateway error rather than an abrupt close.
pub fn upgrade_directive<B>(
    handshake: Result<Response<B>, BackendUnavailable>,
    empty_body: B,
) -> (d: UpgradeDirective<B>)
    ensures
        handshake matches Ok(b) ==> {
            &&& d.response == b
            &&& d.bridge == (b.status == SWITCHING_PROTOCOLS)
        },
        handshake is Err ==> {
            &&& d.response.status == BAD_GATEWAY
            &&& d.response.headers@ == Seq::<(Seq<u8>, Seq<u8>)>::empty()
            &&& d.response.body == empty_body
            &&& !d.bridge
        },
{
    match handshake {
        Ok(b) => {
            let bridge = b.status == SWITCHING_PROTOCOLS;
            UpgradeDirective { response: b, bridge }
        },
        Err(BackendUnavailable) => UpgradeDirective {
            response: Response { status: BAD_GATEWAY, headers: Headers::new(), body: empty_body },
            bridge: false,
        },
    }
}

} // verus!
