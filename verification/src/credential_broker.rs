//! Guest side of managed-proxy credential injection on agentOS.
//!
//! Credential injection is coupled to the sidecar-owned TLS interception
//! path. Configuration that enables it is rejected before this state is
//! constructed; disabled configurations keep the exact environment cleanup.

use vstd::prelude::*;

use crate::env::{str_eq, EnvVars};

verus! {

/// Set to `"1"` in a child's environment while the credential broker is active.
pub const CREDENTIAL_BROKER_ACTIVE_ENV_KEY: &'static str = "CODEX_NETWORK_PROXY_CREDENTIAL_BROKER_ACTIVE";

/// Holds, as a JSON list of `[name, dummy value]` pairs, the credentials that
/// the broker replaced by dummy values.
pub const BROKERED_CREDENTIALS_ENV_KEY: &'static str = "CODEX_NETWORK_PROXY_BROKERED_CREDENTIALS";

/// The names of the credential variables that the broker manages, in order.
pub open spec fn credential_env_key_names() -> Seq<Seq<char>> {
    seq![
        "GH_HOST"@,
        "GH_TOKEN"@,
        "GITHUB_TOKEN"@,
        "GH_ENTERPRISE_TOKEN"@,
        "GITHUB_ENTERPRISE_TOKEN"@,
        "OPENAI_API_KEY"@,
    ]
}

/// The names of the credential variables that the broker manages, in order.
pub fn credential_env_keys() -> (r: Vec<&'static str>)
    ensures
        r@.map_values(|s: &'static str| s@) == credential_env_key_names(),
{
    let r = vec![
        "GH_HOST",
        "GH_TOKEN",
        "GITHUB_TOKEN",
        "GH_ENTERPRISE_TOKEN",
        "GITHUB_ENTERPRISE_TOKEN",
        "OPENAI_API_KEY",
    ];
    assert(r@.map_values(|s: &'static str| s@) =~= credential_env_key_names());
    r
}

/// Whether `name` is one of the managed credential variables.
pub fn is_credential_env_key(name: &str) -> (r: bool)
    ensures
        r == credential_env_key_names().contains(name@),
{
    let keys = credential_env_keys();
    let ghost names = credential_env_key_names();
    let mut i: usize = 0;
    while i < keys.len()
        invariant
            keys@.map_values(|s: &'static str| s@) == names,
            names == credential_env_key_names(),
            i <= keys@.len(),
            forall|j: int| 0 <= j < i ==> names[j] != name@,
        decreases keys@.len() - i,
    {
        assert(names[i as int] == keys@[i as int]@);
        if str_eq(keys[i], name) {
            assert(names[i as int] == name@);
            return true;
        }
        i = i + 1;
    }
    assert(!names.contains(name@)) by {
        if names.contains(name@) {
            let j = choose|j: int| 0 <= j < names.len() && names[j] == name@;
            assert(names[j] != name@);
        }
    }
    false
}

/// The broker is active in an environment that sets the activity marker to `"1"`.
pub open spec fn broker_active(env: Map<Seq<char>, Seq<char>>) -> bool {
    env.contains_key(CREDENTIAL_BROKER_ACTIVE_ENV_KEY@) && env[CREDENTIAL_BROKER_ACTIVE_ENV_KEY@] == "1"@
}

/// The guest's credential broker. On agentOS it can only exist disabled.
#[derive(Clone, Copy)]
pub struct CredentialBroker {
    enabled: bool,
}

impl CredentialBroker {
    #[verifier::type_invariant]
    spec fn never_enabled(&self) -> bool {
        !self.enabled
    }

    /// Whether the broker injects credentials.
    pub closed spec fn is_enabled(&self) -> bool {
        self.enabled
    }

    /// A broker that injects no credentials. An enabled broker must have been
    /// refused before this point: the trusted sidecar owns credential injection.
    pub fn new(enabled: bool) -> (r: Self)
        requires
            !enabled,
        ensures
            r.is_enabled() == enabled,
    {
        CredentialBroker { enabled }
    }

    /// Whether the broker injects credentials; never, on agentOS.
    pub fn enabled(&self) -> (r: bool)
        ensures
            r == self.is_enabled(),
            !r,
    {
        proof {
            use_type_invariant(self);
        }
        self.enabled
    }

    /// Removes the broker's markers from a child's environment; every other
    /// variable keeps its value.
    pub fn virtualize_child_env(&self, env: &mut EnvVars)
        ensures
            final(env)@ == virtualized_env(old(env)@),
    {
        env.remove(CREDENTIAL_BROKER_ACTIVE_ENV_KEY);
        env.remove(BROKERED_CREDENTIALS_ENV_KEY);
    }

    /// Whether requests to `host` must go through TLS interception; never,
    /// on agentOS.
    pub fn host_requires_mitm(&self, host: &str) -> (r: bool)
        ensures
            !r,
    {
        false
    }
}

/// The names of the managed credential variables, when the environment marks
/// the broker active; none otherwise.
pub fn brokered_credential_env_keys(env: &EnvVars) -> (r: Vec<&'static str>)
    ensures
        r@.map_values(|s: &'static str| s@) == if broker_active(env@) {
            credential_env_key_names()
        } else {
            Seq::<Seq<char>>::empty()
        },
{
    let active = match env.get(CREDENTIAL_BROKER_ACTIVE_ENV_KEY) {
        Some(value) => str_eq(value.as_str(), "1"),
        None => false,
    };
    if active {
        credential_env_keys()
    } else {
        let r: Vec<&'static str> = Vec::new();
        assert(r@.map_values(|s: &'static str| s@) =~= Seq::<Seq<char>>::empty());
        r
    }
}

/// What a JSON text decodes to as a list of `[name, value]` string pairs;
/// `None` when it is not such a list.
pub uninterp spec fn json_string_pairs(text: Seq<char>) -> Option<Seq<(Seq<char>, Seq<char>)>>;

/// Decodes the broker's marker with `serde_json::from_str::<Vec<(String, String)>>`.
/// The contract only names the outcome: the decoded pairs, or `None` where
/// serde_json reports an error.
#[verifier::external_body]
fn parse_credential_pairs(text: &str) -> (r: Option<Vec<(String, String)>>)
    ensures
        r.deep_view() == json_string_pairs(text@),
{
    serde_json::from_str::<Vec<(String, String)>>(text).ok()
}

/// The names, in order, of the pairs that name a managed credential variable
/// whose value in `env` is exactly the pair's dummy value.
pub open spec fn dummy_credential_key_names(
    pairs: Seq<(Seq<char>, Seq<char>)>,
    env: Map<Seq<char>, Seq<char>>,
) -> Seq<Seq<char>>
    decreases pairs.len(),
{
    if pairs.len() == 0 {
        Seq::empty()
    } else {
        let rest = dummy_credential_key_names(pairs.drop_last(), env);
        let (name, dummy) = pairs.last();
        if credential_env_key_names().contains(name) && env.contains_key(name) && env[name] == dummy {
            rest.push(name)
        } else {
            rest
        }
    }
}

/// The names that the decoded marker `pairs` reports as still holding their
/// dummy values in `env`; none when the marker did not decode.
pub fn dummy_credential_keys(env: &EnvVars, pairs: Option<Vec<(String, String)>>) -> (r: Vec<String>)
    ensures
        r.deep_view() == match pairs.deep_view() {
            Some(p) => dummy_credential_key_names(p, env@),
            None => Seq::<Seq<char>>::empty(),
        },
{
    let pairs = match pairs {
        Some(p) => p,
        None => {
            let r: Vec<String> = Vec::new();
            assert(r.deep_view() =~= Seq::<Seq<char>>::empty());
            return r;
        },
    };
    let ghost dv = pairs.deep_view();
    let mut r: Vec<String> = Vec::new();
    let mut i: usize = 0;
    while i < pairs.len()
        invariant
            i <= pairs@.len(),
            dv == pairs.deep_view(),
            r.deep_view() == dummy_credential_key_names(dv.take(i as int), env@),
        decreases pairs@.len() - i,
    {
        let (name, dummy) = &pairs[i];
        assert(dv.take(i + 1).drop_last() =~= dv.take(i as int));
        assert(dv.take(i + 1).last() == dv[i as int]);
        assert(dv[i as int] == (name@, dummy@));
        let keep = if is_credential_env_key(name.as_str()) {
            match env.get(name.as_str()) {
                Some(value) => *value == *dummy,
                None => false,
            }
        } else {
            false
        };
        if keep {
            r.push(name.clone());
        }
        assert(r.deep_view() =~= dummy_credential_key_names(dv.take(i + 1), env@));
        i = i + 1;
    }
    assert(dv.take(pairs@.len() as int) =~= dv);
    r
}

/// The managed credential variables that still hold the dummy values that the
/// broker's marker records; none when the marker is unset or does not decode.
pub fn brokered_credential_dummy_env_keys(env: &EnvVars) -> (r: Vec<String>)
    ensures
        r.deep_view() == if env@.contains_key(BROKERED_CREDENTIALS_ENV_KEY@) {
            match json_string_pairs(env@[BROKERED_CREDENTIALS_ENV_KEY@]) {
                Some(p) => dummy_credential_key_names(p, env@),
                None => Seq::<Seq<char>>::empty(),
            }
        } else {
            Seq::<Seq<char>>::empty()
        },
{
    match env.get(BROKERED_CREDENTIALS_ENV_KEY) {
        Some(marker) => {
            let pairs = parse_credential_pairs(marker.as_str());
            dummy_credential_keys(env, pairs)
        },
        None => {
            let r: Vec<String> = Vec::new();
            assert(r.deep_view() =~= Seq::<Seq<char>>::empty());
            r
        },
    }
}

/// The environment that [`CredentialBroker::virtualize_child_env`] leaves.
pub open spec fn virtualized_env(env: Map<Seq<char>, Seq<char>>) -> Map<Seq<char>, Seq<char>> {
    env.remove(CREDENTIAL_BROKER_ACTIVE_ENV_KEY@).remove(BROKERED_CREDENTIALS_ENV_KEY@)
}

/// A cleaned-up child environment reports no brokered credential: the broker
/// is not active in it and it holds no marker of dummy values.
pub proof fn lemma_virtualized_env_reports_no_brokered_credentials(env: Map<Seq<char>, Seq<char>>)
    ensures
        !broker_active(virtualized_env(env)),
        !virtualized_env(env).contains_key(BROKERED_CREDENTIALS_ENV_KEY@),
{
}

/// Cleaning up a child environment twice changes nothing more than once.
pub proof fn lemma_virtualize_idempotent(env: Map<Seq<char>, Seq<char>>)
    ensures
        virtualized_env(virtualized_env(env)) == virtualized_env(env),
{
    assert(virtualized_env(virtualized_env(env)) =~= virtualized_env(env));
}

/// Cleaning up a child environment keeps every other variable as it was.
pub proof fn lemma_virtualize_keeps_other_variables(env: Map<Seq<char>, Seq<char>>, name: Seq<char>)
    requires
        name != CREDENTIAL_BROKER_ACTIVE_ENV_KEY@,
        name != BROKERED_CREDENTIALS_ENV_KEY@,
    ensures
        virtualized_env(env).contains_key(name) == env.contains_key(name),
        env.contains_key(name) ==> virtualized_env(env)[name] == env[name],
{
}

/// Every name reported as holding a dummy value is a managed credential
/// variable, set in the environment to a dummy value that the marker records
/// for it.
pub proof fn lemma_dummy_keys_are_recorded_credentials(
    pairs: Seq<(Seq<char>, Seq<char>)>,
    env: Map<Seq<char>, Seq<char>>,
)
    ensures
        dummy_credential_key_names(pairs, env).len() <= pairs.len(),
        forall|i: int|
            0 <= i < dummy_credential_key_names(pairs, env).len() ==> {
                let name = #[trigger] dummy_credential_key_names(pairs, env)[i];
                &&& credential_env_key_names().contains(name)
                &&& env.contains_key(name)
                &&& exists|j: int| 0 <= j < pairs.len() && pairs[j] == (name, env[name])
            },
    decreases pairs.len(),
{
    if pairs.len() > 0 {
        let init = pairs.drop_last();
        lemma_dummy_keys_are_recorded_credentials(init, env);
        let keys = dummy_credential_key_names(pairs, env);
        let rest = dummy_credential_key_names(init, env);
        assert forall|i: int| 0 <= i < keys.len() implies {
            let name = #[trigger] keys[i];
            &&& credential_env_key_names().contains(name)
            &&& env.contains_key(name)
            &&& exists|j: int| 0 <= j < pairs.len() && pairs[j] == (name, env[name])
        } by {
            if i < rest.len() {
                let name = rest[i];
                assert(keys[i] == name);
                let j = choose|j: int| 0 <= j < init.len() && init[j] == (name, env[name]);
                assert(pairs[j] == init[j]);
            } else {
                let j = pairs.len() - 1;
                assert(pairs[j] == (keys[i], env[keys[i]]));
            }
        }
    }
}

/// The reported names are exactly the marker's pairs, in order, that name a
/// managed credential variable set in the environment to the pair's dummy
/// value: every such pair is reported (none is dropped), and no other.
pub proof fn lemma_dummy_keys_are_exactly_the_matching_pairs(
    pairs: Seq<(Seq<char>, Seq<char>)>,
    env: Map<Seq<char>, Seq<char>>,
)
    ensures
        dummy_credential_key_names(pairs, env) == pairs.filter(
            |p: (Seq<char>, Seq<char>)|
                credential_env_key_names().contains(p.0) && env.contains_key(p.0) && env[p.0] == p.1,
        ).map_values(|p: (Seq<char>, Seq<char>)| p.0),
        forall|j: int|
            0 <= j < pairs.len() && credential_env_key_names().contains(#[trigger] pairs[j].0)
                && env.contains_key(pairs[j].0) && env[pairs[j].0] == pairs[j].1 ==> dummy_credential_key_names(
                pairs,
                env,
            ).contains(pairs[j].0),
    decreases pairs.len(),
{
    reveal(Seq::filter);
    let keep = |p: (Seq<char>, Seq<char>)|
        credential_env_key_names().contains(p.0) && env.contains_key(p.0) && env[p.0] == p.1;
    let name = |p: (Seq<char>, Seq<char>)| p.0;
    if pairs.len() > 0 {
        let init = pairs.drop_last();
        lemma_dummy_keys_are_exactly_the_matching_pairs(init, env);
        let rest = init.filter(keep);
        if keep(pairs.last()) {
            assert(rest.push(pairs.last()).map_values(name) =~= rest.map_values(name).push(pairs.last().0));
        }
        let r = dummy_credential_key_names(pairs, env);
        assert forall|j: int|
            0 <= j < pairs.len() && credential_env_key_names().contains(#[trigger] pairs[j].0)
                && env.contains_key(pairs[j].0) && env[pairs[j].0] == pairs[j].1 implies r.contains(pairs[j].0) by {
            if j < init.len() {
                assert(init[j] == pairs[j]);
                let ri = dummy_credential_key_names(init, env);
                assert(ri.contains(init[j].0));
                let k = choose|k: int| 0 <= k < ri.len() && ri[k] == init[j].0;
                if keep(pairs.last()) {
                    assert(r[k] == ri[k]);
                } else {
                    assert(r == ri);
                }
            } else {
                assert(j == pairs.len() - 1);
                assert(r[r.len() - 1] == pairs[j].0);
            }
        }
    } else {
        assert(pairs.filter(keep).map_values(name) =~= Seq::empty());
    }
}

} // verus!
