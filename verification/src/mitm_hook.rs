//! Configuration of managed-proxy MITM hooks on agentOS.
//!
//! The trusted sidecar owns TLS interception and hook execution. The guest
//! keeps the configuration's shape, but enabling any hook is refused before a
//! proxy or credential broker can be constructed.

use std::collections::BTreeMap;

use vstd::prelude::*;

use crate::boundary::SidecarOwnedError;

verus! {

/// A JSON document, as serde_json holds it.
#[verifier::external_type_specification]
#[verifier::external_body]
pub struct ExJsonValue(serde_json::Value);

/// `<serde_json::Value as Clone>::clone`, which the derived `Clone` of
/// [`MitmHookBodyConfig`] calls. The contract claims only that the call
/// returns; that the copy equals the original is left unsaid, as no verified
/// code reads a JSON body.
pub assume_specification[ <serde_json::Value as Clone>::clone ](v: &serde_json::Value) -> (r: serde_json::Value);

/// One hook: the host it applies to, which requests it matches, and what it
/// does to them.
#[derive(Debug, Clone, PartialEq, Eq, Default)]
pub struct MitmHookConfig {
    pub host: String,
    pub matcher: MitmHookMatchConfig,
    pub actions: MitmHookActionsConfig,
}

/// The requests that a hook matches.
#[derive(Debug, Clone, PartialEq, Eq, Default)]
pub struct MitmHookMatchConfig {
    pub methods: Vec<String>,
    pub path_prefixes: Vec<String>,
    pub query: BTreeMap<String, Vec<String>>,
    pub headers: BTreeMap<String, Vec<String>>,
    pub body: Option<MitmHookBodyConfig>,
}

/// What a hook does to the requests that it matches.
#[derive(Debug, Clone, PartialEq, Eq, Default)]
pub struct MitmHookActionsConfig {
    pub strip_request_headers: Vec<String>,
    pub inject_request_headers: Vec<InjectedHeaderConfig>,
}

/// A header that a hook adds, with the source of its secret value.
#[derive(Debug, Clone, PartialEq, Eq, Default)]
pub struct InjectedHeaderConfig {
    pub name: String,
    pub secret_env_var: Option<String>,
    pub secret_file: Option<String>,
    pub prefix: Option<String>,
}

/// The JSON body that a hook matches.
#[derive(Debug, Clone, PartialEq, Eq)]
pub struct MitmHookBodyConfig(pub serde_json::Value);

/// The compiled actions of a hook; none can exist in the guest.
#[derive(Debug, Clone, PartialEq, Eq)]
pub struct MitmHookActions;

/// The outcome of matching a request against the hooks of its host.
#[derive(Debug, Clone, PartialEq, Eq)]
pub enum HookEvaluation {
    NoHooksForHost,
    Matched { actions: MitmHookActions },
    HookedHostNoMatch,
}

/// Accepts a proxy configuration only when it declares no hook.
pub fn validate_mitm_hook_config(mitm_hooks: &Vec<MitmHookConfig>) -> (r: Result<(), SidecarOwnedError>)
    ensures
        r is Ok <==> mitm_hooks@.len() == 0,
        r is Err ==> r == Err::<(), SidecarOwnedError>(SidecarOwnedError::MitmHooksUnavailable),
{
    if mitm_hooks.len() == 0 {
        return Ok(());
    }
    Err(SidecarOwnedError::MitmHooksUnavailable)
}

/// The hooks of each host, compiled: none, once the configuration is accepted.
pub fn compile_mitm_hooks(mitm_hooks: &Vec<MitmHookConfig>) -> (r: Result<
    BTreeMap<String, Vec<MitmHookActions>>,
    SidecarOwnedError,
>)
    ensures
        r is Ok <==> mitm_hooks@.len() == 0,
        r matches Ok(m) ==> m@ == Map::<String, Vec<MitmHookActions>>::empty(),
        r matches Err(e) ==> e == SidecarOwnedError::MitmHooksUnavailable,
{
    match validate_mitm_hook_config(mitm_hooks) {
        Ok(()) => Ok(BTreeMap::new()),
        Err(e) => Err(e),
    }
}

} // verus!
