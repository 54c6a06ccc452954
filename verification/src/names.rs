//! The header names and tokens that the forwarding core reads or writes,
//! as byte strings (Verus does not accept byte-string literals, so each
//! constant is spelled out in ASCII codes).

use vstd::prelude::*;

verus! {

/// `"host"` in ASCII.
pub open spec fn host_key() -> Seq<u8> {
    seq![104u8, 111u8, 115u8, 116u8]
}

/// `"traceparent"` in ASCII: the trace-correlation header written by the
/// tracing propagator.
pub open spec fn traceparent_key() -> Seq<u8> {
    seq![116u8, 114u8, 97u8, 99u8, 101u8, 112u8, 97u8, 114u8, 101u8, 110u8, 116u8]
}

/// `"connection"` in ASCII.
pub open spec fn connection_key() -> Seq<u8> {
    seq![99u8, 111u8, 110u8, 110u8, 101u8, 99u8, 116u8, 105u8, 111u8, 110u8]
}

/// `"upgrade"` in ASCII: both a header name and the connection option that
/// announces a protocol upgrade.
pub open spec fn upgrade_token() -> Seq<u8> {
    seq![117u8, 112u8, 103u8, 114u8, 97u8, 100u8, 101u8]
}

/// `"websocket"` in ASCII: the streaming-duplex protocol this proxy bridges.
pub open spec fn websocket_token() -> Seq<u8> {
    seq![119u8, 101u8, 98u8, 115u8, 111u8, 99u8, 107u8, 101u8, 116u8]
}

/// `"host"` as a byte string.
pub fn host_key_bytes() -> (r: Vec<u8>)
    ensures
        r@ == host_key(),
{
    let mut v: Vec<u8> = Vec::new();
    v.push(104);
    v.push(111);
    v.push(115);
    v.push(116);
    proof {
        assert(v@ =~= host_key());
    }
    v
}

/// `"traceparent"` as a byte string.
pub fn traceparent_key_bytes() -> (r: Vec<u8>)
    ensures
        r@ == traceparent_key(),
{
    let mut v: Vec<u8> = Vec::new();
    v.push(116);
    v.push(114);
    v.push(97);
    v.push(99);
    v.push(101);
    v.push(112);
    v.push(97);
    v.push(114);
    v.push(101);
    v.push(110);
    v.push(116);
    proof {
        assert(v@ =~= traceparent_key());
    }
    v
}

/// `"connection"` as a byte string.
pub fn connection_key_bytes() -> (r: Vec<u8>)
    ensures
        r@ == connection_key(),
{
    let mut v: Vec<u8> = Vec::new();
    v.push(99);
    v.push(111);
    v.push(110);
    v.push(110);
    v.push(101);
    v.push(99);
    v.push(116);
    v.push(105);
    v.push(111);
    v.push(110);
    proof {
        assert(v@ =~= connection_key());
    }
    v
}

/// `"upgrade"` as a byte string.
pub fn upgrade_token_bytes() -> (r: Vec<u8>)
    ensures
        r@ == upgrade_token(),
{
    let mut v: Vec<u8> = Vec::new();
    v.push(117);
    v.push(112);
    v.push(103);
    v.push(114);
    v.push(97);
    v.push(100);
    v.push(101);
    proof {
        assert(v@ =~= upgrade_token());
    }
    v
}

/// `"websocket"` as a byte string.
pub fn websocket_token_bytes() -> (r: Vec<u8>)
    ensures
        r@ == websocket_token(),
{
    let mut v: Vec<u8> = Vec::new();
    v.push(119);
    v.push(101);
    v.push(98);
    v.push(115);
    v.push(111);
    v.push(99);
    v.push(107);
    v.push(101);
    v.push(116);
    proof {
        assert(v@ =~= websocket_token());
    }
    v
}

} // verus!
