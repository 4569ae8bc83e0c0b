//! Guest side of Codex's managed HTTP proxy on agentOS.
//!
//! The trusted agentOS sidecar owns proxy execution and network policy.
//! Starting a second proxy in the untrusted guest is an architectural error,
//! so this path fails explicitly. It does not restrict the guest's own TCP or
//! HTTP use. The socket address or listener of a start request stays with
//! the caller: std's networking types do not enter this library.

use std::sync::Arc;

use vstd::prelude::*;

use crate::boundary::SidecarOwnedError;

verus! {

/// Refuses to run the managed HTTP proxy, whatever the proxy state, policy
/// decider and environment.
pub fn run_http_proxy<State, Decider: ?Sized>(
    state: Arc<State>,
    policy_decider: Option<Arc<Decider>>,
    environment_id: Option<String>,
) -> (r: Result<(), SidecarOwnedError>)
    ensures
        r == Err::<(), SidecarOwnedError>(SidecarOwnedError::HttpProxyUnavailable),
{
    Err(SidecarOwnedError::HttpProxyUnavailable)
}

/// Refuses to run the managed HTTP proxy on an already bound listener,
/// whatever the proxy state, policy decider and environment. The listener
/// itself is the caller's to close.
pub fn run_http_proxy_with_std_listener<State, Decider: ?Sized>(
    state: Arc<State>,
    policy_decider: Option<Arc<Decider>>,
    environment_id: Option<String>,
) -> (r: Result<(), SidecarOwnedError>)
    ensures
        r == Err::<(), SidecarOwnedError>(SidecarOwnedError::HttpProxyUnavailable),
{
    Err(SidecarOwnedError::HttpProxyUnavailable)
}

} // verus!
