//! The tracing propagator: when enabled, it injects the active trace/span
//! correlation context into the outbound header set before dispatch, and
//! touches nothing else.

use vstd::prelude::*;

use crate::headers::{Headers, set_value};
use crate::names::{traceparent_key, traceparent_key_bytes};

verus! {

/// The trace/span correlation context active for one inbound request, as the
/// value the propagation format writes into the trace-correlation header.
/// The surrounding host extracts it from its tracing runtime.
pub struct TraceContext {
    pub traceparent: Vec<u8>,
}

/// The header value an optional context would inject.
pub open spec fn trace_view(context: Option<TraceContext>) -> Option<Seq<u8>> {
    match context {
        Some(c) => Some(c.traceparent@),
        None => None,
    }
}

/// A header set after tracing propagation: pure addition or overwrite of the
/// trace-correlation header alone; without an active context, the set is
/// untouched.
pub open spec fn inject_spec(h: Seq<(Seq<u8>, Seq<u8>)>, t: Option<Seq<u8>>) -> Seq<
    (Seq<u8>, Seq<u8>),
> {
    match t {
        Some(v) => set_value(h, traceparent_key(), v),
        None => h,
    }
}

/// Inject the active trace context into an outbound header set. Writes or
/// overwrites only the trace-correlation header; the absence of an active
/// context is a no-op, not an error.
pub fn inject_trace_context(headers: &mut Headers, context: Option<TraceContext>)
    ensures
        final (headers)@ == inject_spec(old(headers)@, trace_view(context)),
{
    match context {
        Some(c) => {
            headers.set(traceparent_key_bytes(), c.traceparent);
        },
        None => {},
    }
}

} // verus!
