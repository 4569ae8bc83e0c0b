//! Host-boundary definitions for Codex's managed-proxy CA on agentOS.
//!
//! TLS for guest HTTP is terminated by the trusted agentOS sidecar. The guest
//! must not mint a second interception CA or change trust policy: these
//! definitions keep shared configuration code portable, and any attempt to
//! enable the in-process MITM path fails explicitly.

use vstd::prelude::*;

use crate::boundary::SidecarOwnedError;
use crate::env::EnvVars;

verus! {

/// The variables through which tools are pointed at a custom CA bundle, in order.
pub open spec fn custom_ca_env_key_names() -> Seq<Seq<char>> {
    seq![
        "CODEX_CA_CERTIFICATE"@,
        "SSL_CERT_FILE"@,
        "REQUESTS_CA_BUNDLE"@,
        "CURL_CA_BUNDLE"@,
        "NODE_EXTRA_CA_CERTS"@,
        "GIT_SSL_CAINFO"@,
        "CARGO_HTTP_CAINFO"@,
        "PIP_CERT"@,
        "BUNDLE_SSL_CA_CERT"@,
        "npm_config_cafile"@,
        "NPM_CONFIG_CAFILE"@,
    ]
}

/// The variables through which tools are pointed at a custom CA bundle, in order.
pub fn custom_ca_env_keys() -> (r: Vec<&'static str>)
    ensures
        r@.map_values(|s: &'static str| s@) == custom_ca_env_key_names(),
{
    let r = vec![
        "CODEX_CA_CERTIFICATE",
        "SSL_CERT_FILE",
        "REQUESTS_CA_BUNDLE",
        "CURL_CA_BUNDLE",
        "NODE_EXTRA_CA_CERTS",
        "GIT_SSL_CAINFO",
        "CARGO_HTTP_CAINFO",
        "PIP_CERT",
        "BUNDLE_SSL_CA_CERT",
        "npm_config_cafile",
        "NPM_CONFIG_CAFILE",
    ];
    assert(r@.map_values(|s: &'static str| s@) =~= custom_ca_env_key_names());
    r
}

/// The CA variables of the process environment. The guest reads none: its
/// trust settings come from the sidecar.
pub fn ca_env_from_process() -> (r: EnvVars)
    ensures
        r@ == Map::<Seq<char>, Seq<char>>::empty(),
{
    EnvVars::new()
}

/// The trust bundle of the managed MITM CA, with the CA variables that were
/// set at startup.
pub struct ManagedMitmCaTrustBundle {
    pub path: String,
    pub startup_env_values: EnvVars,
}

/// The managed MITM CA's trust bundle; refused in the guest, whatever the
/// environment holds.
pub fn managed_ca_trust_bundle(env: &EnvVars) -> (r: Result<ManagedMitmCaTrustBundle, SidecarOwnedError>)
    ensures
        r matches Err(e) && e == SidecarOwnedError::ManagedCaUnavailable,
{
    Err(SidecarOwnedError::ManagedCaUnavailable)
}

/// Whether `path` is the managed MITM CA's trust bundle; no path is, in the guest.
pub fn is_managed_mitm_ca_trust_bundle_path(path: &str) -> (r: bool)
    ensures
        !r,
{
    false
}

} // verus!
