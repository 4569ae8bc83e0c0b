//! Guest side of Codex's managed-proxy TLS interception on agentOS.
//!
//! The trusted agentOS sidecar owns TLS interception and trust policy; the
//! untrusted guest must not create a second interception authority.

use vstd::prelude::*;

use crate::boundary::SidecarOwnedError;

verus! {

/// Settings of the interception path towards upstream servers.
pub struct MitmUpstreamConfig {
    pub allow_upstream_proxy: bool,
}

/// State of in-process TLS interception; none can be built in the guest.
#[derive(Debug)]
pub struct MitmState;

impl MitmState {
    /// Refuses to build interception state, whatever the settings.
    pub fn new(config: MitmUpstreamConfig) -> (r: Result<Self, SidecarOwnedError>)
        ensures
            r matches Err(e) && e == SidecarOwnedError::TlsInterceptionUnavailable,
    {
        Err(SidecarOwnedError::TlsInterceptionUnavailable)
    }
}

} // verus!
