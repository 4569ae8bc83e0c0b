//! Refusals of the features that the trusted agentOS sidecar owns.

use vstd::prelude::*;

verus! {

/// A guest-side request for something that only the trusted agentOS sidecar
/// may do.
#[derive(Debug, Clone, Copy, PartialEq, Eq)]
pub enum SidecarOwnedError {
    /// The in-process MITM certificate authority.
    ManagedCaUnavailable,
    /// Running the managed HTTP proxy inside the VM.
    HttpProxyUnavailable,
    /// Managed-proxy MITM hooks.
    MitmHooksUnavailable,
    /// In-process TLS interception.
    TlsInterceptionUnavailable,
}

impl SidecarOwnedError {
    /// The message that explains the refusal.
    pub fn message(&self) -> (r: String)
        ensures
            r@ == match *self {
                SidecarOwnedError::ManagedCaUnavailable => "Codex's in-process MITM CA is unavailable in agentOS VMs; TLS trust and network policy are owned by the trusted agentOS sidecar"@,
                SidecarOwnedError::HttpProxyUnavailable => "Codex's managed HTTP proxy cannot run inside an agentOS VM; proxy execution is owned by the trusted agentOS sidecar"@,
                SidecarOwnedError::MitmHooksUnavailable => "Codex's managed-proxy MITM hooks cannot run inside an agentOS VM; TLS interception and credential injection are owned by the trusted agentOS sidecar"@,
                SidecarOwnedError::TlsInterceptionUnavailable => "Codex's in-process TLS interception cannot run inside an agentOS VM; TLS policy is owned by the trusted agentOS sidecar"@,
            },
    {
        match self {
            SidecarOwnedError::ManagedCaUnavailable => String::from_str(
                "Codex's in-process MITM CA is unavailable in agentOS VMs; TLS trust and network policy are owned by the trusted agentOS sidecar",
            ),
            SidecarOwnedError::HttpProxyUnavailable => String::from_str(
                "Codex's managed HTTP proxy cannot run inside an agentOS VM; proxy execution is owned by the trusted agentOS sidecar",
            ),
            SidecarOwnedError::MitmHooksUnavailable => String::from_str(
                "Codex's managed-proxy MITM hooks cannot run inside an agentOS VM; TLS interception and credential injection are owned by the trusted agentOS sidecar",
            ),
            SidecarOwnedError::TlsInterceptionUnavailable => String::from_str(
                "Codex's in-process TLS interception cannot run inside an agentOS VM; TLS policy is owned by the trusted agentOS sidecar",
            ),
        }
    }
}

} // verus!
