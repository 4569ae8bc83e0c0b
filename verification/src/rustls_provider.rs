//! Installation of the process-wide rustls crypto provider.
//!
//! The WASI build uses `ring`, which supports the target without a native C
//! toolchain. Embedded hosts may have installed a provider of their own
//! before Codex gets to it; that case is accepted as it is.

use rustls::crypto::CryptoProvider;

use vstd::prelude::*;

verus! {

/// A rustls crypto provider.
#[verifier::external_type_specification]
#[verifier::external_body]
pub struct ExCryptoProvider(CryptoProvider);

/// `rustls::crypto::ring::default_provider`: the ring-backed provider with
/// rustls's default cipher suites and key-exchange groups. The value is
/// opaque here; the contract claims nothing of it.
#[verifier::external_body]
fn ring_default_provider() -> (r: CryptoProvider) {
    rustls::crypto::ring::default_provider()
}

/// `CryptoProvider::install_default`: makes `provider` the process default;
/// `true` when it did, `false` when a default was installed before. The
/// outcome rests on process-wide state, so the contract claims nothing of it.
#[verifier::external_body]
fn install_default_provider(provider: CryptoProvider) -> (r: bool) {
    provider.install_default().is_ok()
}

/// `CryptoProvider::get_default`: whether the process has a default
/// provider. The answer rests on process-wide state, so the contract claims
/// nothing of it.
#[verifier::external_body]
fn default_provider_installed() -> (r: bool) {
    CryptoProvider::get_default().is_some()
}

/// How an attempt to install the ring provider ended.
#[derive(Debug, Clone, Copy, PartialEq, Eq)]
pub enum ProviderInstallOutcome {
    /// The ring provider is now the process default.
    Installed,
    /// Another provider was the process default already; it stays.
    AlreadyInstalled,
    /// The installation reported success, yet the process has no default.
    MissingAfterInstall,
}

/// The outcome of an attempt, from whether the installation succeeded and,
/// after a success, whether the process then has a default provider.
pub fn provider_install_outcome(installed: bool, default_present: bool) -> (r: ProviderInstallOutcome)
    ensures
        r == if !installed {
            ProviderInstallOutcome::AlreadyInstalled
        } else if default_present {
            ProviderInstallOutcome::Installed
        } else {
            ProviderInstallOutcome::MissingAfterInstall
        },
{
    if !installed {
        ProviderInstallOutcome::AlreadyInstalled
    } else if default_present {
        ProviderInstallOutcome::Installed
    } else {
        ProviderInstallOutcome::MissingAfterInstall
    }
}

/// Tries once to install the ring provider as the process default, and
/// checks after a success that the process has a default provider.
pub fn install_ring_crypto_provider() -> (r: ProviderInstallOutcome) {
    let installed = install_default_provider(ring_default_provider());
    if !installed {
        return provider_install_outcome(false, false);
    }
    let present = default_provider_installed();
    provider_install_outcome(true, present)
}

} // verus!
