use otto_launcher::auth::{
    generate_wallet, get_onboarding_status, global_config_path, load_github_token,
    public_key_from_secret, remove_github_token, save_github_token, set_defaults, AuthInfo,
    AuthStore, ConfigFile, Defaults,
};

fn empty_store() -> AuthStore {
    AuthStore { entries: Vec::new() }
}

#[test]
fn github_token_save_load_remove() {
    let mut store = empty_store();
    assert_eq!(load_github_token(&store), None);
    save_github_token(&mut store, "gho_abc");
    assert_eq!(load_github_token(&store), Some("gho_abc".to_string()));
    match &store.entries[0].info {
        AuthInfo::OAuth { access, refresh, expires } => {
            assert_eq!(access, "gho_abc");
            assert_eq!(refresh, "gho_abc");
            assert_eq!(*expires, 0);
        }
        _ => panic!("expected oauth entry"),
    }
    save_github_token(&mut store, "gho_new");
    assert_eq!(store.entries.len(), 1);
    assert_eq!(load_github_token(&store), Some("gho_new".to_string()));
    remove_github_token(&mut store);
    assert_eq!(store.entries.len(), 0);
    assert_eq!(load_github_token(&store), None);
}

#[test]
fn api_key_counts_as_token() {
    let mut store = empty_store();
    store.entries.push(otto_launcher::auth::AuthEntry {
        name: "github".to_string(),
        info: AuthInfo::Api { key: "k1".to_string() },
    });
    assert_eq!(load_github_token(&store), Some("k1".to_string()));
}

#[test]
fn config_path_is_under_agi() {
    assert_eq!(global_config_path("/home/u/.config"), "/home/u/.config/agi/config.json");
}

#[test]
fn defaults_merge_only_given_values() {
    let mut config = ConfigFile {
        onboarding_complete: false,
        defaults: Defaults {
            agent: Some("a0".to_string()),
            provider: None,
            model: Some("m0".to_string()),
            tool_approval: None,
        },
    };
    set_defaults(&mut config, None, Some("p1".to_string()), Some("m1".to_string()), None);
    assert_eq!(config.defaults.agent, Some("a0".to_string()));
    assert_eq!(config.defaults.provider, Some("p1".to_string()));
    assert_eq!(config.defaults.model, Some("m1".to_string()));
    assert_eq!(config.defaults.tool_approval, None);
    assert!(!config.onboarding_complete);
}

#[test]
fn public_key_from_secret_takes_last_32_bytes() {
    let mut full = [0u8; 64];
    for (i, b) in full.iter_mut().enumerate() {
        *b = i as u8;
    }
    let secret = bs58::encode(&full[..]).into_string();
    let expected = bs58::encode(&full[32..]).into_string();
    assert_eq!(public_key_from_secret(&secret).unwrap(), expected);
}

#[test]
fn public_key_from_secret_rejects_bad_input() {
    assert!(public_key_from_secret("0OIl not base58").is_err());
    let short = bs58::encode(&[1u8, 2, 3]).into_string();
    assert!(public_key_from_secret(&short).is_err());
}

#[test]
fn wallet_generation_is_idempotent() {
    let mut store = empty_store();
    let first = generate_wallet(&mut store).unwrap();
    assert_eq!(store.entries.len(), 1);
    let secret = match &store.entries[0].info {
        AuthInfo::Wallet { secret } => secret.clone(),
        _ => panic!("expected wallet"),
    };
    assert_eq!(
        public_key_from_secret(&secret).unwrap(),
        first.public_key
    );
    let second = generate_wallet(&mut store).unwrap();
    assert_eq!(second.public_key, first.public_key);
    assert_eq!(store.entries.len(), 1);
}

#[test]
fn onboarding_status_lists_eight_providers() {
    let mut store = empty_store();
    save_github_token(&mut store, "t");
    store.entries.push(otto_launcher::auth::AuthEntry {
        name: "openai".to_string(),
        info: AuthInfo::Api { key: "sk".to_string() },
    });
    let config = ConfigFile {
        onboarding_complete: true,
        defaults: Defaults { agent: None, provider: None, model: None, tool_approval: None },
    };
    let status = get_onboarding_status(&config, &store).unwrap();
    assert!(status.onboarding_complete);
    assert!(!status.setu.configured);
    assert_eq!(status.providers.len(), 8);
    let openai = status.providers.iter().find(|p| p.0 == "openai").unwrap();
    assert!(openai.1.configured);
    assert_eq!(openai.1.auth_type, Some("api".to_string()));
    assert_eq!(openai.1.label, "OpenAI");
    let google = status.providers.iter().find(|p| p.0 == "google").unwrap();
    assert!(!google.1.configured);
    assert_eq!(google.1.auth_type, None);
}
