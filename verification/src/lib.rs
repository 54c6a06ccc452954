//! A strangler-fig forwarding core: the request-rewriting, upgrade-detection,
//! tracing-propagation and response-assembly logic of an HTTP proxy that
//! transparently redirects inbound traffic to a configured backend.

pub mod ascii;
pub mod config;
pub mod forward;
pub mod headers;
pub mod message;
pub mod names;
pub mod scheme;
pub mod trace;
pub mod upgrade;
