use codex_wasi_boundary::{
    brokered_credential_dummy_env_keys, brokered_credential_env_keys, credential_env_keys,
    dummy_credential_keys, is_credential_env_key, str_eq, CredentialBroker, EnvVars,
    BROKERED_CREDENTIALS_ENV_KEY, CREDENTIAL_BROKER_ACTIVE_ENV_KEY,
};

fn env_of(pairs: &[(&str, &str)]) -> EnvVars {
    let mut env = EnvVars::new();
    for (k, v) in pairs {
        env.insert(k.to_string(), v.to_string());
    }
    env
}

#[test]
fn env_insert_get_remove() {
    let mut env = EnvVars::new();
    assert_eq!(env.get("A"), None);
    env.insert("A".to_string(), "1".to_string());
    env.insert("B".to_string(), "2".to_string());
    env.insert("A".to_string(), "3".to_string());
    assert_eq!(env.get("A").map(String::as_str), Some("3"));
    assert_eq!(env.get("B").map(String::as_str), Some("2"));
    assert!(env.contains_key("B"));
    env.remove("A");
    env.remove("missing");
    assert_eq!(env.get("A"), None);
    assert_eq!(env.get("B").map(String::as_str), Some("2"));
    let pairs = env.into_pairs();
    assert_eq!(pairs, vec![("B".to_string(), "2".to_string())]);
}

#[test]
fn str_eq_compares_characters() {
    assert!(str_eq("abc", "abc"));
    assert!(!str_eq("abc", "abd"));
    assert!(!str_eq("abc", "ab"));
}

#[test]
fn credential_keys_are_listed_in_order() {
    assert_eq!(
        credential_env_keys(),
        vec![
            "GH_HOST",
            "GH_TOKEN",
            "GITHUB_TOKEN",
            "GH_ENTERPRISE_TOKEN",
            "GITHUB_ENTERPRISE_TOKEN",
            "OPENAI_API_KEY"
        ]
    );
    assert!(is_credential_env_key("GITHUB_TOKEN"));
    assert!(!is_credential_env_key("GITHUB_TOKENS"));
    assert!(!is_credential_env_key("PATH"));
}

#[test]
fn broker_keys_reported_when_active() {
    let env = env_of(&[(CREDENTIAL_BROKER_ACTIVE_ENV_KEY, "1")]);
    assert_eq!(brokered_credential_env_keys(&env), credential_env_keys());
}

#[test]
fn broker_keys_not_reported_when_inactive() {
    let env = env_of(&[(CREDENTIAL_BROKER_ACTIVE_ENV_KEY, "true")]);
    assert!(brokered_credential_env_keys(&env).is_empty());
    let env = env_of(&[("OTHER", "1")]);
    assert!(brokered_credential_env_keys(&env).is_empty());
}

#[test]
fn dummy_keys_keep_only_managed_names_still_holding_dummies() {
    let marker = r#"[["GH_TOKEN","dummy-gh"],["OPENAI_API_KEY","dummy-openai"],["PATH","x"],["GITHUB_TOKEN","dummy-g"]]"#;
    let env = env_of(&[
        (BROKERED_CREDENTIALS_ENV_KEY, marker),
        ("GH_TOKEN", "dummy-gh"),
        ("OPENAI_API_KEY", "real-key"),
        ("PATH", "x"),
    ]);
    assert_eq!(brokered_credential_dummy_env_keys(&env), vec!["GH_TOKEN".to_string()]);
}

#[test]
fn dummy_keys_follow_marker_order() {
    let marker = r#"[["OPENAI_API_KEY","d1"],["GH_HOST","d2"]]"#;
    let env = env_of(&[
        (BROKERED_CREDENTIALS_ENV_KEY, marker),
        ("GH_HOST", "d2"),
        ("OPENAI_API_KEY", "d1"),
    ]);
    assert_eq!(
        brokered_credential_dummy_env_keys(&env),
        vec!["OPENAI_API_KEY".to_string(), "GH_HOST".to_string()]
    );
}

#[test]
fn dummy_keys_empty_for_bad_or_missing_marker() {
    let env = env_of(&[(BROKERED_CREDENTIALS_ENV_KEY, "not json"), ("GH_TOKEN", "not json")]);
    assert!(brokered_credential_dummy_env_keys(&env).is_empty());
    let env = env_of(&[(BROKERED_CREDENTIALS_ENV_KEY, r#"{"GH_TOKEN":"d"}"#), ("GH_TOKEN", "d")]);
    assert!(brokered_credential_dummy_env_keys(&env).is_empty());
    let env = env_of(&[("GH_TOKEN", "d")]);
    assert!(brokered_credential_dummy_env_keys(&env).is_empty());
}

#[test]
fn dummy_keys_from_decoded_pairs() {
    let env = env_of(&[("GH_HOST", "h")]);
    let pairs = vec![
        ("GH_HOST".to_string(), "h".to_string()),
        ("GH_HOST".to_string(), "other".to_string()),
    ];
    assert_eq!(dummy_credential_keys(&env, Some(pairs)), vec!["GH_HOST".to_string()]);
    assert!(dummy_credential_keys(&env, None).is_empty());
}

#[test]
fn broker_is_disabled_and_never_requires_mitm() {
    let broker = CredentialBroker::new(false);
    assert!(!broker.enabled());
    assert!(!broker.host_requires_mitm("api.github.com"));
    let copy = broker.clone();
    assert!(!copy.enabled());
}

#[test]
fn virtualized_child_env_reports_no_brokered_credentials() {
    let broker = CredentialBroker::new(false);
    let mut env = env_of(&[
        (CREDENTIAL_BROKER_ACTIVE_ENV_KEY, "1"),
        (BROKERED_CREDENTIALS_ENV_KEY, r#"[["GH_TOKEN","d"]]"#),
        ("GH_TOKEN", "d"),
        ("HOME", "/root"),
    ]);
    assert_eq!(brokered_credential_dummy_env_keys(&env), vec!["GH_TOKEN".to_string()]);
    broker.virtualize_child_env(&mut env);
    assert!(brokered_credential_env_keys(&env).is_empty());
    assert!(brokered_credential_dummy_env_keys(&env).is_empty());
    assert_eq!(env.get("GH_TOKEN").map(String::as_str), Some("d"));
    assert_eq!(env.get("HOME").map(String::as_str), Some("/root"));
    broker.virtualize_child_env(&mut env);
    let mut pairs = env.into_pairs();
    pairs.sort();
    assert_eq!(
        pairs,
        vec![
            ("GH_TOKEN".to_string(), "d".to_string()),
            ("HOME".to_string(), "/root".to_string())
        ]
    );
}
