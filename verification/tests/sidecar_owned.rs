use std::sync::Arc;

use codex_wasi_boundary::{
    ca_env_from_process, compile_mitm_hooks, create_symlink, custom_ca_env_keys,
    install_ring_crypto_provider, is_managed_mitm_ca_trust_bundle_path,
    managed_ca_trust_bundle, provider_install_outcome, run_http_proxy,
    run_http_proxy_with_std_listener, validate_mitm_hook_config, EnvVars, GitToolingError,
    HookEvaluation, IoFailureKind, MitmHookActions, MitmHookBodyConfig, MitmHookConfig,
    MitmState, MitmUpstreamConfig, ProviderInstallOutcome, SidecarOwnedError,
};

#[test]
fn custom_ca_keys_are_listed_in_order() {
    let keys = custom_ca_env_keys();
    assert_eq!(keys.len(), 11);
    assert_eq!(keys[0], "CODEX_CA_CERTIFICATE");
    assert_eq!(keys[9], "npm_config_cafile");
    assert_eq!(keys[10], "NPM_CONFIG_CAFILE");
}

#[test]
fn ca_env_is_empty_in_guest() {
    let env = ca_env_from_process();
    assert!(env.into_pairs().is_empty());
}

#[test]
fn managed_ca_bundle_is_refused() {
    let mut env = EnvVars::new();
    env.insert("SSL_CERT_FILE".to_string(), "/etc/ssl/ca.pem".to_string());
    let err = managed_ca_trust_bundle(&env).err().unwrap();
    assert_eq!(err, SidecarOwnedError::ManagedCaUnavailable);
    assert!(err.message().contains("in-process MITM CA is unavailable"));
    assert!(!is_managed_mitm_ca_trust_bundle_path("/tmp/codex-mitm-ca.pem"));
    assert!(!is_managed_mitm_ca_trust_bundle_path(""));
}

#[test]
fn mitm_hooks_accepted_only_when_none() {
    assert_eq!(validate_mitm_hook_config(&Vec::new()), Ok(()));
    let compiled = compile_mitm_hooks(&Vec::new()).unwrap();
    assert!(compiled.is_empty());

    let hooks = vec![MitmHookConfig { host: "api.github.com".to_string(), ..Default::default() }];
    assert_eq!(validate_mitm_hook_config(&hooks), Err(SidecarOwnedError::MitmHooksUnavailable));
    assert_eq!(compile_mitm_hooks(&hooks), Err(SidecarOwnedError::MitmHooksUnavailable));
    assert_eq!(
        SidecarOwnedError::MitmHooksUnavailable.message(),
        "Codex's managed-proxy MITM hooks cannot run inside an agentOS VM; TLS interception and credential injection are owned by the trusted agentOS sidecar"
    );
}

#[test]
fn hook_config_types_hold_their_values() {
    let mut hook = MitmHookConfig::default();
    hook.matcher.body = Some(MitmHookBodyConfig(serde_json::from_str(r#"{"a": 1}"#).unwrap()));
    let copy = hook.clone();
    assert_eq!(copy, hook);
    let evaluation = HookEvaluation::Matched { actions: MitmHookActions };
    assert_ne!(evaluation, HookEvaluation::NoHooksForHost);
}

#[test]
fn tls_interception_is_refused() {
    let err = MitmState::new(MitmUpstreamConfig { allow_upstream_proxy: true }).err().unwrap();
    assert_eq!(err, SidecarOwnedError::TlsInterceptionUnavailable);
    let err = MitmState::new(MitmUpstreamConfig { allow_upstream_proxy: false }).err().unwrap();
    assert_eq!(err, SidecarOwnedError::TlsInterceptionUnavailable);
}

#[test]
fn http_proxy_is_refused() {
    let r = run_http_proxy::<u8, str>(Arc::new(0), None, Some("env".to_string()));
    assert_eq!(r, Err(SidecarOwnedError::HttpProxyUnavailable));
    let r = run_http_proxy_with_std_listener::<u8, str>(Arc::new(0), Some(Arc::from("d")), None);
    assert_eq!(r, Err(SidecarOwnedError::HttpProxyUnavailable));
    assert_eq!(
        SidecarOwnedError::HttpProxyUnavailable.message(),
        "Codex's managed HTTP proxy cannot run inside an agentOS VM; proxy execution is owned by the trusted agentOS sidecar"
    );
}

#[test]
fn symlink_creation_is_unsupported() {
    match create_symlink("/a", "b", "/c") {
        Err(GitToolingError::Io(f)) => {
            assert_eq!(f.kind, IoFailureKind::Unsupported);
            assert_eq!(f.message, "symlink creation is not supported in the secure-exec wasm VM");
        }
        Ok(()) => panic!("symlink creation must fail"),
    }
}

#[test]
fn provider_outcomes() {
    assert_eq!(provider_install_outcome(false, false), ProviderInstallOutcome::AlreadyInstalled);
    assert_eq!(provider_install_outcome(false, true), ProviderInstallOutcome::AlreadyInstalled);
    assert_eq!(provider_install_outcome(true, true), ProviderInstallOutcome::Installed);
    assert_eq!(provider_install_outcome(true, false), ProviderInstallOutcome::MissingAfterInstall);
}

#[test]
fn ring_provider_installs_once_per_process() {
    assert_eq!(install_ring_crypto_provider(), ProviderInstallOutcome::Installed);
    assert_eq!(install_ring_crypto_provider(), ProviderInstallOutcome::AlreadyInstalled);
}
