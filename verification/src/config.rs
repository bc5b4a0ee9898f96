//! Host-supplied session configuration, as plain data.
//!
//! The driver's own connection and balancing machinery consumes these
//! values; this crate only carries them across the boundary.

use vstd::prelude::*;

verus! {

/// The host's load-balancing preferences for a session.
pub struct CSLoadBalancingPolicy {
    pub is_token_aware: bool,
    pub is_dc_aware: bool,
    pub local_dc: String,
}

/// The host's session configuration.
pub struct CSConfiguration {
    pub load_balancing_policy: CSLoadBalancingPolicy,
}

} // verus!
