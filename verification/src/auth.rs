//! The credential/auth store and the onboarding status derived from it: a
//! keyed store of provider credentials (API key, wallet secret, or OAuth
//! tokens) with unique names, the GitHub token operations on it, and the
//! Base58 wallet keys. Reading and writing the store's JSON file is I/O and
//! happens outside this crate.

use vstd::prelude::*;
use vstd::string::*;
use crate::strutil::str_eq;

verus! {

/// One provider's stored credential.
pub enum AuthInfo {
    Api { key: String },
    Wallet { secret: String },
    OAuth { access: String, refresh: String, expires: i64 },
}

/// A named credential.
pub struct AuthEntry {
    pub name: String,
    pub info: AuthInfo,
}

/// The credential store: entries with pairwise distinct names, so a name
/// identifies at most one credential.
pub struct AuthStore {
    pub entries: Vec<AuthEntry>,
}

pub open spec fn entry_names_unique(entries: Seq<AuthEntry>) -> bool {
    forall|i: int, j: int| 0 <= i < j < entries.len() ==> entries[i].name@ != entries[j].name@
}

impl AuthStore {
    /// The store's invariant: one entry per name.
    pub open spec fn wf(self) -> bool {
        entry_names_unique(self.entries@)
    }
}

/// The index of the first entry named `name`, scanning from `i`.
pub open spec fn find_from(entries: Seq<AuthEntry>, name: Seq<char>, i: int) -> Option<int>
    decreases entries.len() - i,
{
    if i < 0 || i >= entries.len() {
        None
    } else if entries[i].name@ == name {
        Some(i)
    } else {
        find_from(entries, name, i + 1)
    }
}

/// The index of the entry named `name`, if any.
pub open spec fn find_entry(entries: Seq<AuthEntry>, name: Seq<char>) -> Option<int> {
    find_from(entries, name, 0)
}

fn find_index(auth: &AuthStore, name: &str) -> (r: Option<usize>)
    ensures
        r matches Some(i) ==> i < auth.entries@.len() && find_entry(auth.entries@, name@) == Some(
            i as int,
        ),
        r is None ==> find_entry(auth.entries@, name@) is None,
{
    let mut i: usize = 0;
    while i < auth.entries.len()
        invariant
            i <= auth.entries@.len(),
            find_entry(auth.entries@, name@) == find_from(auth.entries@, name@, i as int),
        decreases auth.entries@.len() - i,
    {
        if str_eq(auth.entries[i].name.as_str(), name) {
            return Some(i);
        }
        i += 1;
    }
    None
}

/// How a store changes when the credential for `name` becomes `info`: an
/// existing entry is replaced in place, otherwise a new entry is appended,
/// and every other entry is untouched.
pub open spec fn set_post(
    older: Seq<AuthEntry>,
    newer: Seq<AuthEntry>,
    name: Seq<char>,
    info: AuthInfo,
) -> bool {
    match find_entry(older, name) {
        Some(i) => newer.len() == older.len() && (forall|j: int|
            0 <= j < older.len() && j != i ==> newer[j] == older[j]) && newer[i].name@ == name
            && newer[i].info == info,
        None => newer.len() == older.len() + 1 && (forall|j: int|
            0 <= j < older.len() ==> newer[j] == older[j]) && newer.last().name@ == name
            && newer.last().info == info,
    }
}

/// Sets the credential for `name`, replacing an existing entry or appending
/// a new one; every other entry is untouched.
pub fn store_set(auth: &mut AuthStore, name: &str, info: AuthInfo)
    requires
        old(auth).wf(),
    ensures
        final(auth).wf(),
        set_post(old(auth).entries@, final(auth).entries@, name@, info),
{
    proof {
        lemma_find_entry_found(old(auth).entries@, name@);
        lemma_find_from_props(old(auth).entries@, name@, 0);
    }
    match find_index(auth, name) {
        Some(i) => {
            auth.entries[i] = AuthEntry { name: String::from_str(name), info };
            proof {
                lemma_unique_after_update(old(auth).entries@, final(auth).entries@, name@, i as int);
            }
        },
        None => {
            auth.entries.push(AuthEntry { name: String::from_str(name), info });
            proof {
                lemma_unique_after_push(old(auth).entries@, final(auth).entries@, name@);
            }
        },
    }
}

proof fn lemma_find_from_props(entries: Seq<AuthEntry>, name: Seq<char>, i: int)
    ensures
        find_from(entries, name, i) matches Some(k) ==> i <= k < entries.len() && entries[k].name@
            == name,
    decreases entries.len() - i,
{
    if 0 <= i < entries.len() && entries[i].name@ != name {
        lemma_find_from_props(entries, name, i + 1);
    }
}

proof fn lemma_find_from_name(entries: Seq<AuthEntry>, name: Seq<char>, i: int, k: int)
    requires
        0 <= i <= k < entries.len(),
        entries[k].name@ == name,
    ensures
        find_from(entries, name, i) is Some,
    decreases entries.len() - i,
{
    if entries[i].name@ != name {
        lemma_find_from_name(entries, name, i + 1, k);
    }
}

/// When `find_entry` fails, no entry bears the name.
proof fn lemma_find_entry_found(entries: Seq<AuthEntry>, name: Seq<char>)
    ensures
        find_entry(entries, name) is None ==> forall|k: int|
            0 <= k < entries.len() ==> entries[k].name@ != name,
{
    if find_entry(entries, name) is None {
        assert forall|k: int| 0 <= k < entries.len() implies entries[k].name@ != name by {
            if entries[k].name@ == name {
                lemma_find_from_name(entries, name, 0, k);
            }
        }
    }
}

proof fn lemma_unique_after_update(
    older: Seq<AuthEntry>,
    newer: Seq<AuthEntry>,
    name: Seq<char>,
    i: int,
)
    requires
        entry_names_unique(older),
        0 <= i < older.len(),
        older[i].name@ == name,
        newer.len() == older.len(),
        forall|j: int| 0 <= j < older.len() && j != i ==> newer[j] == older[j],
        newer[i].name@ == name,
    ensures
        entry_names_unique(newer),
{
}

proof fn lemma_unique_after_push(older: Seq<AuthEntry>, newer: Seq<AuthEntry>, name: Seq<char>)
    requires
        entry_names_unique(older),
        forall|k: int| 0 <= k < older.len() ==> older[k].name@ != name,
        newer.len() == older.len() + 1,
        forall|j: int| 0 <= j < older.len() ==> newer[j] == older[j],
        newer.last().name@ == name,
    ensures
        entry_names_unique(newer),
{
}

/// Removes the credential for `name`, if present; every other entry is kept
/// in order.
pub fn store_remove(auth: &mut AuthStore, name: &str)
    requires
        old(auth).wf(),
    ensures
        final(auth).wf(),
        match find_entry(old(auth).entries@, name@) {
            Some(i) => final(auth).entries@ == old(auth).entries@.remove(i),
            None => final(auth).entries@ == old(auth).entries@,
        },
{
    match find_index(auth, name) {
        Some(i) => {
            auth.entries.remove(i);
            proof {
                let older = old(auth).entries@;
                let newer = final(auth).entries@;
                assert forall|a: int, b: int| 0 <= a < b < newer.len() implies newer[a].name@
                    != newer[b].name@ by {
                    let a0 = if a < i {
                        a
                    } else {
                        a + 1
                    };
                    let b0 = if b < i {
                        b
                    } else {
                        b + 1
                    };
                    assert(newer[a] == older[a0]);
                    assert(newer[b] == older[b0]);
                }
            }
        },
        None => {},
    }
}

/// The OAuth credential `save_github_token` writes for a token.
pub open spec fn oauth_token_info(info: AuthInfo, tok: Seq<char>) -> bool {
    info matches AuthInfo::OAuth { access, refresh, expires } && access@ == tok && refresh@ == tok
        && expires == 0
}

/// Stores a GitHub token: the `github` entry becomes an OAuth credential
/// with the token as both access and refresh value, and nothing else
/// changes.
pub fn save_github_token(auth: &mut AuthStore, token: &str)
    requires
        old(auth).wf(),
    ensures
        final(auth).wf(),
        exists|info: AuthInfo| #[trigger] set_post(
            old(auth).entries@,
            final(auth).entries@,
            "github"@,
            info,
        ) && oauth_token_info(info, token@),
{
    let info = AuthInfo::OAuth {
        access: String::from_str(token),
        refresh: String::from_str(token),
        expires: 0,
    };
    store_set(auth, "github", info);
}

/// The token a stored credential yields: the OAuth access token, the plain
/// API key, and nothing from a wallet.
pub open spec fn token_of(info: AuthInfo) -> Option<Seq<char>> {
    match info {
        AuthInfo::OAuth { access, refresh, expires } => Some(access@),
        AuthInfo::Api { key } => Some(key@),
        AuthInfo::Wallet { secret } => None,
    }
}

/// Reads the stored GitHub token, if any.
pub fn load_github_token(auth: &AuthStore) -> (r: Option<String>)
    ensures
        r matches Some(t) ==> (find_entry(auth.entries@, "github"@) matches Some(i) && token_of(
            auth.entries@[i].info,
        ) == Some(t@)),
        r is None ==> (find_entry(auth.entries@, "github"@) matches Some(i) ==> token_of(
            auth.entries@[i].info,
        ) is None),
{
    match find_index(auth, "github") {
        Some(i) => match &auth.entries[i].info {
            AuthInfo::OAuth { access, refresh: _, expires: _ } => Some(access.clone()),
            AuthInfo::Api { key } => Some(key.clone()),
            AuthInfo::Wallet { secret: _ } => None,
        },
        None => None,
    }
}

/// Forgets the stored GitHub token.
pub fn remove_github_token(auth: &mut AuthStore)
    requires
        old(auth).wf(),
    ensures
        final(auth).wf(),
        match find_entry(old(auth).entries@, "github"@) {
            Some(i) => final(auth).entries@ == old(auth).entries@.remove(i),
            None => final(auth).entries@ == old(auth).entries@,
        },
{
    store_remove(auth, "github");
}

/// The configuration file's path under the user's configuration home.
pub fn global_config_path(config_home: &str) -> (r: String)
    ensures
        r@ == config_home@ + "/agi/config.json"@,
{
    let mut s = String::from_str(config_home);
    s.append("/agi/config.json");
    s
}

/// The user's default agent, provider, model and tool-approval choices.
pub struct Defaults {
    pub agent: Option<String>,
    pub provider: Option<String>,
    pub model: Option<String>,
    pub tool_approval: Option<String>,
}

/// The persisted configuration file.
pub struct ConfigFile {
    pub onboarding_complete: bool,
    pub defaults: Defaults,
}

/// Merges new default choices into the configuration: each given value
/// replaces the stored one, each absent value leaves it alone.
pub fn set_defaults(
    config: &mut ConfigFile,
    agent: Option<String>,
    provider: Option<String>,
    model: Option<String>,
    tool_approval: Option<String>,
)
    ensures
        final(config).defaults.agent == (if agent is Some {
            agent
        } else {
            old(config).defaults.agent
        }),
        final(config).defaults.provider == (if provider is Some {
            provider
        } else {
            old(config).defaults.provider
        }),
        final(config).defaults.model == (if model is Some {
            model
        } else {
            old(config).defaults.model
        }),
        final(config).defaults.tool_approval == (if tool_approval is Some {
            tool_approval
        } else {
            old(config).defaults.tool_approval
        }),
        final(config).onboarding_complete == old(config).onboarding_complete,
{
    if agent.is_some() {
        config.defaults.agent = agent;
    }
    if provider.is_some() {
        config.defaults.provider = provider;
    }
    if model.is_some() {
        config.defaults.model = model;
    }
    if tool_approval.is_some() {
        config.defaults.tool_approval = tool_approval;
    }
}

/// Marks onboarding as complete, leaving the defaults alone.
pub fn complete_onboarding(config: &mut ConfigFile)
    ensures
        final(config).onboarding_complete,
        final(config).defaults == old(config).defaults,
{
    config.onboarding_complete = true;
}

/// The Base58 encoding of a byte sequence.
pub uninterp spec fn b58_of(bytes: Seq<u8>) -> Seq<char>;

/// The result of Base58 decoding: `None` on text that is not valid Base58.
pub uninterp spec fn b58_decoded(s: Seq<char>) -> Option<Seq<u8>>;

/// Relies on `bs58::encode`: the output is a pure function of the input
/// bytes, and decoding it returns those bytes.
#[verifier::external_body]
pub fn b58_encode(bytes: &[u8]) -> (r: String)
    ensures
        r@ == b58_of(bytes@),
        b58_decoded(r@) == Some(bytes@),
{
    bs58::encode(bytes).into_string()
}

/// Relies on `bs58::decode` (`into_vec`): it returns the decoded bytes, or
/// an error on text that is not valid Base58.
#[verifier::external_body]
pub fn b58_decode(s: &str) -> (r: Option<Vec<u8>>)
    ensures
        r matches Some(v) ==> b58_decoded(s@) == Some(v@),
        r is None ==> b58_decoded(s@) is None,
{
    bs58::decode(s).into_vec().ok()
}

/// Relies on `ed25519_dalek::SigningKey::generate` with `rand`'s `OsRng`,
/// and `SigningKey::verifying_key`: a fresh random keypair; only the byte
/// lengths are assumed.
#[verifier::external_body]
fn ed25519_generate() -> (r: (Vec<u8>, Vec<u8>))
    ensures
        r.0@.len() == 32,
        r.1@.len() == 32,
{
    let sk = ed25519_dalek::SigningKey::generate(&mut rand::rngs::OsRng);
    let vk = sk.verifying_key();
    (sk.to_bytes().to_vec(), vk.to_bytes().to_vec())
}

/// Recovers the wallet's public key from its Base58 secret: the secret
/// decodes to 64 bytes (signing key, then verifying key), and the public key
/// is the Base58 encoding of the last 32.
pub fn public_key_from_secret(secret_b58: &str) -> (r: Result<String, String>)
    ensures
        r matches Ok(pk) ==> (b58_decoded(secret_b58@) matches Some(b) && b.len() == 64 && pk@
            == b58_of(b.subrange(32, 64))),
        r is Err <==> (b58_decoded(secret_b58@) is None || (b58_decoded(secret_b58@) matches Some(
            b,
        ) && b.len() != 64)),
{
    let bytes = match b58_decode(secret_b58) {
        Some(b) => b,
        None => {
            return Err(String::from_str("Base58 decode failed"));
        },
    };
    if bytes.len() != 64 {
        return Err(String::from_str("Invalid secret key length"));
    }
    let mut bytes = bytes;
    let vk = bytes.split_off(32);
    Ok(b58_encode(vk.as_slice()))
}

/// The displayed result of wallet generation.
pub struct WalletResult {
    pub public_key: String,
}

/// Assembles the stored secret and the displayed public key from a fresh
/// keypair's bytes: the secret encodes signing key followed by verifying
/// key, the public key encodes the verifying key alone.
pub fn wallet_from_keypair(sk: &Vec<u8>, vk: &Vec<u8>) -> (r: (String, String))
    requires
        sk@.len() == 32,
        vk@.len() == 32,
    ensures
        r.0@ == b58_of(sk@ + vk@),
        b58_decoded(r.0@) == Some(sk@ + vk@),
        r.1@ == b58_of(vk@),
{
    let mut full: Vec<u8> = Vec::new();
    full.extend_from_slice(sk.as_slice());
    full.extend_from_slice(vk.as_slice());
    proof {
        assert(full@ =~= sk@ + vk@);
    }
    let secret = b58_encode(full.as_slice());
    let public_key = b58_encode(vk.as_slice());
    (secret, public_key)
}

/// The Base58 secret of the wallet stored under `setu`, if one is stored.
pub open spec fn stored_wallet_secret(entries: Seq<AuthEntry>) -> Option<Seq<char>> {
    match find_entry(entries, "setu"@) {
        Some(i) => match entries[i].info {
            AuthInfo::Wallet { secret } => Some(secret@),
            _ => None,
        },
        None => None,
    }
}

/// Returns the wallet's public key, generating and storing a fresh wallet
/// under `setu` when none is stored yet. An existing wallet is never
/// replaced: its public key is re-derived from the stored secret and the
/// store is untouched (a malformed stored secret is an error); a fresh
/// wallet's stored secret decodes to 64 bytes whose last 32 encode the
/// returned public key.
pub fn generate_wallet(auth: &mut AuthStore) -> (r: Result<WalletResult, String>)
    requires
        old(auth).wf(),
    ensures
        final(auth).wf(),
        stored_wallet_secret(old(auth).entries@) matches Some(sec) ==> (final(auth).entries@
            == old(auth).entries@ && (r matches Ok(w) ==> (b58_decoded(sec) matches Some(b)
            && b.len() == 64 && w.public_key@ == b58_of(b.subrange(32, 64)))) && (b58_decoded(
            sec,
        ) matches Some(b) ==> (b.len() == 64 ==> r is Ok))),
        stored_wallet_secret(old(auth).entries@) is None ==> (r matches Ok(w) && exists|
            info: AuthInfo,
        |
            #[trigger] set_post(old(auth).entries@, final(auth).entries@, "setu"@, info) && (
            info matches AuthInfo::Wallet { secret } && b58_decoded(secret@) matches Some(b)
                && b.len() == 64 && w.public_key@ == b58_of(b.subrange(32, 64)))),
{
    let existing = match find_index(auth, "setu") {
        Some(i) => match &auth.entries[i].info {
            AuthInfo::Wallet { secret } => Some(secret.clone()),
            _ => None,
        },
        None => None,
    };
    match existing {
        Some(secret) => match public_key_from_secret(secret.as_str()) {
            Ok(public_key) => Ok(WalletResult { public_key }),
            Err(e) => Err(e),
        },
        None => {
            let (sk, vk) = ed25519_generate();
            let (secret, public_key) = wallet_from_keypair(&sk, &vk);
            let info = AuthInfo::Wallet { secret };
            let ghost ginfo = info;
            store_set(auth, "setu", info);
            proof {
                assert((sk@ + vk@).subrange(32, 64) =~= vk@);
                assert(set_post(old(auth).entries@, auth.entries@, "setu"@, ginfo));
            }
            Ok(WalletResult { public_key })
        },
    }
}

/// The wallet's display status.
pub struct SetuStatus {
    pub configured: bool,
    pub public_key: Option<String>,
}

/// One provider's display status.
pub struct ProviderStatus {
    pub configured: bool,
    pub auth_type: Option<String>,
    pub label: String,
    pub supports_oauth: bool,
    pub model_count: usize,
}

/// Everything the onboarding screen needs, derived from the configuration
/// and the credential store.
pub struct OnboardingStatus {
    pub onboarding_complete: bool,
    pub setu: SetuStatus,
    pub providers: Vec<(String, ProviderStatus)>,
    pub defaults: Defaults,
}

/// The display name of a credential's kind.
pub open spec fn auth_type_name(info: AuthInfo) -> Seq<char> {
    match info {
        AuthInfo::Api { key } => "api"@,
        AuthInfo::Wallet { secret } => "wallet"@,
        AuthInfo::OAuth { access, refresh, expires } => "oauth"@,
    }
}

/// The wallet's status: configured with its public key when a wallet is
/// stored under `setu`, unconfigured otherwise. It fails only on a stored
/// secret that is not 64 Base58 bytes; a well-formed or absent secret is
/// always answered.
pub fn setu_status(auth: &AuthStore) -> (r: Result<SetuStatus, String>)
    ensures
        r matches Ok(s) ==> match stored_wallet_secret(auth.entries@) {
            Some(sec) => s.configured && (s.public_key matches Some(pk) && b58_decoded(
                sec,
            ) matches Some(b) && b.len() == 64 && pk@ == b58_of(b.subrange(32, 64))),
            None => !s.configured && s.public_key is None,
        },
        r is Err ==> stored_wallet_secret(auth.entries@) is Some,
        stored_wallet_secret(auth.entries@) matches Some(sec) ==> (b58_decoded(sec) matches Some(
            b,
        ) ==> (b.len() == 64 ==> r is Ok)),
{
    let secret = match find_index(auth, "setu") {
        Some(i) => match &auth.entries[i].info {
            AuthInfo::Wallet { secret } => Some(secret.clone()),
            _ => None,
        },
        None => None,
    };
    match secret {
        Some(sec) => match public_key_from_secret(sec.as_str()) {
            Ok(pk) => Ok(SetuStatus { configured: true, public_key: Some(pk) }),
            Err(e) => Err(e),
        },
        None => Ok(SetuStatus { configured: false, public_key: None }),
    }
}

/// One provider's status: configured when the store holds a credential for
/// its id, labelled with that credential's kind.
pub fn provider_status(
    auth: &AuthStore,
    id: &str,
    label: &str,
    model_count: usize,
    supports_oauth: bool,
) -> (r: ProviderStatus)
    ensures
        r.configured == (find_entry(auth.entries@, id@) is Some),
        find_entry(auth.entries@, id@) matches Some(i) ==> (r.auth_type matches Some(t) && t@
            == auth_type_name(auth.entries@[i].info)),
        find_entry(auth.entries@, id@) is None ==> r.auth_type is None,
        r.label@ == label@,
        r.supports_oauth == supports_oauth,
        r.model_count == model_count,
{
    let auth_type = match find_index(auth, id) {
        Some(i) => match &auth.entries[i].info {
            AuthInfo::Api { key: _ } => Some(String::from_str("api")),
            AuthInfo::Wallet { secret: _ } => Some(String::from_str("wallet")),
            AuthInfo::OAuth { access: _, refresh: _, expires: _ } => Some(
                String::from_str("oauth"),
            ),
        },
        None => None,
    };
    ProviderStatus {
        configured: auth_type.is_some(),
        auth_type,
        label: String::from_str(label),
        supports_oauth,
        model_count,
    }
}

fn clone_defaults(d: &Defaults) -> (r: Defaults)
    ensures
        (r.agent matches Some(s) <==> d.agent matches Some(t)) && (r.agent matches Some(s) ==> (
        d.agent matches Some(t) && s@ == t@)),
        (r.provider matches Some(s) <==> d.provider matches Some(t)) && (r.provider matches Some(
            s,
        ) ==> (d.provider matches Some(t) && s@ == t@)),
        (r.model matches Some(s) <==> d.model matches Some(t)) && (r.model matches Some(s) ==> (
        d.model matches Some(t) && s@ == t@)),
        (r.tool_approval matches Some(s) <==> d.tool_approval matches Some(t)) && (
        r.tool_approval matches Some(s) ==> (d.tool_approval matches Some(t) && s@ == t@)),
{
    let agent = match &d.agent {
        Some(s) => Some(s.clone()),
        None => None,
    };
    let provider = match &d.provider {
        Some(s) => Some(s.clone()),
        None => None,
    };
    let model = match &d.model {
        Some(s) => Some(s.clone()),
        None => None,
    };
    let tool_approval = match &d.tool_approval {
        Some(s) => Some(s.clone()),
        None => None,
    };
    Defaults { agent, provider, model, tool_approval }
}

/// Assembles the onboarding screen's status: the completion flag and
/// defaults from the configuration, the wallet's status, and the eight known
/// providers with their stored credentials. Each provider entry is built by
/// `provider_status`, whose contract fixes its fields.
pub fn get_onboarding_status(config: &ConfigFile, auth: &AuthStore) -> (r: Result<
    OnboardingStatus,
    String,
>)
    ensures
        r matches Ok(st) ==> (st.onboarding_complete == config.onboarding_complete
            && st.providers@.len() == 8 && (match stored_wallet_secret(auth.entries@) {
            Some(sec) => st.setu.configured && (st.setu.public_key matches Some(pk)
                && b58_decoded(sec) matches Some(b) && b.len() == 64 && pk@ == b58_of(
                b.subrange(32, 64),
            )),
            None => !st.setu.configured && st.setu.public_key is None,
        })),
        r is Err ==> stored_wallet_secret(auth.entries@) is Some,
        stored_wallet_secret(auth.entries@) matches Some(sec) ==> (b58_decoded(sec) matches Some(
            b,
        ) ==> (b.len() == 64 ==> r is Ok)),
{
    let setu = match setu_status(auth) {
        Ok(s) => s,
        Err(e) => {
            return Err(e);
        },
    };
    let mut providers: Vec<(String, ProviderStatus)> = Vec::new();
    providers.push(
        (String::from_str("openai"), provider_status(auth, "openai", "OpenAI", 40, true)),
    );
    providers.push(
        (String::from_str("anthropic"), provider_status(auth, "anthropic", "Anthropic", 21, true)),
    );
    providers.push(
        (String::from_str("google"), provider_status(auth, "google", "Google", 26, false)),
    );
    providers.push(
        (
            String::from_str("openrouter"),
            provider_status(auth, "openrouter", "OpenRouter", 141, false),
        ),
    );
    providers.push(
        (
            String::from_str("opencode"),
            provider_status(auth, "opencode", "OpenCode Zen", 28, false),
        ),
    );
    providers.push((String::from_str("zai"), provider_status(auth, "zai", "Z.AI", 7, false)));
    providers.push(
        (
            String::from_str("zai-coding"),
            provider_status(auth, "zai-coding", "Z.AI Coding Plan", 8, false),
        ),
    );
    providers.push(
        (String::from_str("moonshot"), provider_status(auth, "moonshot", "Moonshot AI", 6, false)),
    );
    Ok(
        OnboardingStatus {
            onboarding_complete: config.onboarding_complete,
            setu,
            providers,
            defaults: clone_defaults(&config.defaults),
        },
    )
}

} // verus!
