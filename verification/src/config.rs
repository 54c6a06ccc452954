//! Construction-time configuration: the forwarding target, the forwarding
//! policy, the host's capabilities, and the validation that makes an
//! unsupported configuration fail fast — at construction, never per request.

use vstd::prelude::*;

use crate::scheme::{HttpScheme, WebSocketScheme, http_scheme_secure, web_socket_scheme_secure};

verus! {

/// The capabilities the surrounding host offers. A requested configuration
/// that leans on a capability the host lacks is rejected at construction.
#[derive(Clone, Copy)]
pub struct Capabilities {
    pub secure_schemes: bool,
    pub upgrades: bool,
    pub tracing_propagation: bool,
}

/// Where requests are strangled to: the backend's authority (host with an
/// optional port) and the schemes used for plain and upgrade traffic.
pub struct ForwardingTarget {
    pub authority: Vec<u8>,
    pub http_scheme: HttpScheme,
    pub upgrade_scheme: Option<WebSocketScheme>,
}

/// Per-forwarder behaviour flags; immutable after construction.
#[derive(Clone, Copy)]
pub struct ForwardingPolicy {
    pub rewrite_host_header: bool,
    pub upgrade_enabled: bool,
    pub tracing_propagation_enabled: bool,
}

/// Invalid or unsupported construction-time settings. Fatal at construction;
/// request handling never raises one.
#[derive(Clone, Copy, PartialEq, Eq, Structural, Debug)]
pub enum ConfigurationError {
    /// The configured authority is not a valid URI authority.
    InvalidAuthority,
    /// A secure scheme was requested without the secure-scheme capability.
    UnsupportedScheme,
    /// Upgrade handling was enabled without the upgrade capability.
    UnsupportedUpgrade,
    /// An enabled upgrade path needs an upgrade scheme.
    MissingUpgradeScheme,
    /// Tracing propagation was enabled without the tracing capability.
    UnsupportedTracingPropagation,
}

/// Whether a byte string is a syntactically valid URI authority, as decided
/// by the URI implementation the transport uses.
pub uninterp spec fn authority_valid(s: Seq<u8>) -> bool;

/// Relies on `http::uri::Authority::try_from(&[u8])`: it validates the bytes
/// of an authority and accepts or rejects them depending on the bytes alone,
/// without panicking.
#[verifier::external_body]
fn check_authority(s: &Vec<u8>) -> (r: bool)
    ensures
        r == authority_valid(s@),
{
    http::uri::Authority::try_from(s.as_slice()).is_ok()
}

/// The first fault of a requested configuration, in validation order, or
/// `None` when the configuration is acceptable.
pub open spec fn config_error(
    target: ForwardingTarget,
    policy: ForwardingPolicy,
    caps: Capabilities,
) -> Option<ConfigurationError> {
    if !authority_valid(target.authority@) {
        Some(ConfigurationError::InvalidAuthority)
    } else if http_scheme_secure(target.http_scheme) && !caps.secure_schemes {
        Some(ConfigurationError::UnsupportedScheme)
    } else if target.upgrade_scheme matches Some(u) && web_socket_scheme_secure(u)
        && !caps.secure_schemes {
        Some(ConfigurationError::UnsupportedScheme)
    } else if policy.upgrade_enabled && !caps.upgrades {
        Some(ConfigurationError::UnsupportedUpgrade)
    } else if policy.upgrade_enabled && target.upgrade_scheme is None {
        Some(ConfigurationError::MissingUpgradeScheme)
    } else if policy.tracing_propagation_enabled && !caps.tracing_propagation {
        Some(ConfigurationError::UnsupportedTracingPropagation)
    } else {
        None
    }
}

/// A configured strangler: the forwarding target and policy, fixed at
/// construction and shared read-only by all in-flight forwarding operations.
pub struct Strangler {
    pub target: ForwardingTarget,
    pub policy: ForwardingPolicy,
}

impl Strangler {
    /// The structural invariant construction establishes: an enabled upgrade
    /// path always has an upgrade scheme to resolve.
    pub open spec fn wf(&self) -> bool {
        self.policy.upgrade_enabled ==> self.target.upgrade_scheme is Some
    }

    /// Validate the requested configuration against the host's capabilities
    /// and construct the forwarder.
    pub fn new(
        target: ForwardingTarget,
        policy: ForwardingPolicy,
        caps: Capabilities,
    ) -> (r: Result<Strangler, ConfigurationError>)
        ensures
            r matches Ok(s) ==> {
                &&& config_error(target, policy, caps) is None
                &&& s.target == target
                &&& s.policy == policy
                &&& s.wf()
            },
            r matches Err(e) ==> config_error(target, policy, caps) == Some(e),
    {
        if !check_authority(&target.authority) {
            return Err(ConfigurationError::InvalidAuthority);
        }
        match target.http_scheme {
            HttpScheme::Https => {
                if !caps.secure_schemes {
                    return Err(ConfigurationError::UnsupportedScheme);
                }
            },
            HttpScheme::Http => {},
        }
        match target.upgrade_scheme {
            Some(WebSocketScheme::Wss) => {
                if !caps.secure_schemes {
                    return Err(ConfigurationError::UnsupportedScheme);
                }
            },
            _ => {},
        }
        if policy.upgrade_enabled {
            if !caps.upgrades {
                return Err(ConfigurationError::UnsupportedUpgrade);
            }
            if target.upgrade_scheme.is_none() {
                return Err(ConfigurationError::MissingUpgradeScheme);
            }
        }
        if policy.tracing_propagation_enabled && !caps.tracing_propagation {
            return Err(ConfigurationError::UnsupportedTracingPropagation);
        }
        Ok(Strangler { target, policy })
    }
}

} // verus!
