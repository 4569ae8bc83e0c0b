//! Guest-side boundary of Codex's managed network proxy and `codex-exec`
//! session-turn engine for the agentOS wasm32-wasip1 VM.
//!
//! The trusted agentOS sidecar owns TLS interception, credential injection and
//! proxy execution. This library keeps the guest's share of that contract:
//! the attribution wire frame, the environment cleanup for brokered
//! credentials, the configuration checks that refuse sidecar-owned features,
//! and the decisions of the newline-JSON session-turn protocol.

pub mod attribution;
pub mod boundary;
pub mod certs;
pub mod credential_broker;
pub mod env;
pub mod git_platform;
pub mod http_proxy;
pub mod json;
pub mod mitm;
pub mod mitm_hook;
pub mod rustls_provider;
pub mod session_turn;

pub use attribution::{
    write_attribution_frame, AttributionFrameError, MAX_ATTRIBUTION_TOKEN_LEN,
    PROXY_ATTRIBUTION_TOKEN_ENV_KEY,
};
pub use boundary::SidecarOwnedError;
pub use certs::{
    ca_env_from_process, custom_ca_env_keys, is_managed_mitm_ca_trust_bundle_path,
    managed_ca_trust_bundle, ManagedMitmCaTrustBundle,
};
pub use credential_broker::{
    brokered_credential_dummy_env_keys, brokered_credential_env_keys, credential_env_keys,
    dummy_credential_keys, is_credential_env_key, CredentialBroker, BROKERED_CREDENTIALS_ENV_KEY,
    CREDENTIAL_BROKER_ACTIVE_ENV_KEY,
};
pub use env::{str_eq, EnvVars};
pub use git_platform::{create_symlink, GitToolingError, IoFailure, IoFailureKind};
pub use json::{get_field, get_string_field, parse_json, trim_white_space, JsonValue};
pub use http_proxy::{run_http_proxy, run_http_proxy_with_std_listener};
pub use mitm::{MitmState, MitmUpstreamConfig};
pub use mitm_hook::{
    compile_mitm_hooks, validate_mitm_hook_config, HookEvaluation, InjectedHeaderConfig,
    MitmHookActions, MitmHookActionsConfig, MitmHookBodyConfig, MitmHookConfig,
    MitmHookMatchConfig,
};
pub use rustls_provider::{
    install_ring_crypto_provider, provider_install_outcome, ProviderInstallOutcome,
};
pub use session_turn::{
    approval_decision, config_overrides, decode_permission_decision, decode_start_message,
    start_message_from, history_from_start, outbound_fields, plan_thread_start,
    session_settings, stub_mode, turn_step, unsupported_mode_notice, AgentEvent, ContentItem,
    HistoryEntry, HistoryMessage, OutboundMessage, OverrideValue, ReviewDecision,
    SessionSettings, StartMessage, StubMode, ThreadStart, ToolCallStatus, TurnControl,
    TurnState, TurnStep,
};
