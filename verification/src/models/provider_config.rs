//! Stored provider configurations, and the encryption of their API keys:
//! AES-256-GCM under a key derived from a secret with SHA-256, stored as
//! base64 of the nonce followed by the ciphertext and tag.
use vstd::prelude::*;
use crate::clock::{Timestamp, now_timestamp};
use crate::text::str_eq;
use aes_gcm::aead::{Aead, KeyInit, OsRng};
use aes_gcm::{Aes256Gcm, Nonce};
use base64::Engine;
use rand::RngCore;
use sha2::{Digest, Sha256};

verus! {

/// The provider types that can be configured.
pub const SUPPORTED_PROVIDERS: [&'static str; 3] = ["openai", "anthropic", "google"];

/// The number of nonce bytes at the front of an encrypted key.
pub const NONCE_LEN: usize = 12;

/// The number of tag bytes at the end of an encrypted key.
pub const TAG_LEN: usize = 16;

/// The largest plaintext AES-GCM encrypts, in bytes.
pub const MAX_PLAINTEXT: u64 = 0x10_0000_0000;

/// The SHA-256 digest of `data`.
pub uninterp spec fn sha256(data: Seq<u8>) -> Seq<u8>;

/// AES-256-GCM encryption of `plaintext` under `key` and `nonce`, without
/// associated data: the ciphertext followed by the tag.
pub uninterp spec fn aes256gcm_seal(key: Seq<u8>, nonce: Seq<u8>, plaintext: Seq<u8>) -> Seq<u8>;

/// AES-256-GCM decryption: the plaintext, or `None` when the tag does not
/// authenticate `ciphertext` under `key` and `nonce`.
pub uninterp spec fn aes256gcm_open(key: Seq<u8>, nonce: Seq<u8>, ciphertext: Seq<u8>) -> Option<Seq<u8>>;

/// Standard (padded) base64 text of `data`.
pub uninterp spec fn base64_encode(data: Seq<u8>) -> Seq<char>;

/// The bytes standard base64 decoding reads from `text`, if it is valid.
pub uninterp spec fn base64_decode(text: Seq<char>) -> Option<Seq<u8>>;

/// The message of the base64 decoding error for `text`.
pub uninterp spec fn base64_error_text(text: Seq<char>) -> Seq<char>;

/// The message of the UTF-8 error for `bytes`.
pub uninterp spec fn utf8_error_text(bytes: Seq<u8>) -> Seq<char>;

/// Calls `Sha256::digest` on `data`.
#[verifier::external_body]
fn sha256_digest(data: &[u8]) -> (r: Vec<u8>)
    ensures
        r@ == sha256(data@),
        r@.len() == 32,
{
    Sha256::digest(data).to_vec()
}

/// Fills 12 bytes from `aes_gcm::aead::OsRng`. The bytes are random: only
/// their number is stated.
#[verifier::external_body]
fn random_nonce() -> (r: Vec<u8>)
    ensures
        r@.len() == NONCE_LEN,
{
    let mut nonce = [0u8; 12];
    OsRng.fill_bytes(&mut nonce);
    nonce.to_vec()
}

/// Calls `Aes256Gcm::encrypt` with the 32-byte `key` and 12-byte `nonce`,
/// which fails only for plaintexts over 2^36 bytes. Besides naming the
/// ciphertext, the contract states that it is the plaintext's length plus
/// the 16-byte tag, and that decryption under the same key and nonce gives
/// the plaintext back.
#[verifier::external_body]
fn aes_seal(key: &[u8], nonce: &[u8], plaintext: &[u8]) -> (r: Vec<u8>)
    requires
        key@.len() == 32,
        nonce@.len() == NONCE_LEN,
        plaintext@.len() <= MAX_PLAINTEXT,
    ensures
        r@ == aes256gcm_seal(key@, nonce@, plaintext@),
        r@.len() == plaintext@.len() + TAG_LEN,
        aes256gcm_open(key@, nonce@, r@) == Some(plaintext@),
{
    let cipher = Aes256Gcm::new_from_slice(key).unwrap();
    cipher.encrypt(Nonce::from_slice(nonce), plaintext).unwrap()
}

/// Calls `Aes256Gcm::decrypt` with the 32-byte `key` and 12-byte `nonce`.
#[verifier::external_body]
fn aes_open(key: &[u8], nonce: &[u8], ciphertext: &[u8]) -> (r: Option<Vec<u8>>)
    requires
        key@.len() == 32,
        nonce@.len() == NONCE_LEN,
    ensures
        match r {
            Some(p) => aes256gcm_open(key@, nonce@, ciphertext@) == Some(p@),
            None => aes256gcm_open(key@, nonce@, ciphertext@) is None,
        },
{
    let cipher = Aes256Gcm::new_from_slice(key).unwrap();
    cipher.decrypt(Nonce::from_slice(nonce), ciphertext).ok()
}

/// Calls `base64::engine::general_purpose::STANDARD.encode`. Besides naming
/// the text, the contract states that decoding it gives the bytes back.
#[verifier::external_body]
fn base64_encode_bytes(data: &[u8]) -> (r: String)
    ensures
        r@ == base64_encode(data@),
        base64_decode(r@) == Some(data@),
{
    base64::engine::general_purpose::STANDARD.encode(data)
}

/// Calls `base64::engine::general_purpose::STANDARD.decode`; on failure,
/// the error's text.
#[verifier::external_body]
fn base64_decode_text(text: &str) -> (r: Result<Vec<u8>, String>)
    ensures
        match r {
            Ok(v) => base64_decode(text@) == Some(v@),
            Err(e) => base64_decode(text@) is None && e@ == base64_error_text(text@),
        },
{
    base64::engine::general_purpose::STANDARD.decode(text).map_err(|e| e.to_string())
}

/// Calls `String::from_utf8`, which succeeds exactly on valid UTF-8 and
/// decodes it; on failure, the error's text.
#[verifier::external_body]
fn utf8_string(bytes: Vec<u8>) -> (r: Result<String, String>)
    ensures
        r is Ok <==> vstd::utf8::valid_utf8(bytes@),
        r matches Ok(s) ==> s@ == vstd::utf8::decode_utf8(bytes@),
        r matches Err(e) ==> e@ == utf8_error_text(bytes@),
{
    String::from_utf8(bytes).map_err(|e| e.to_string())
}

/// What decrypting the stored text `encrypted` with `secret` gives: the API
/// key, or the message of the step that failed.
pub open spec fn decrypt_spec(encrypted: Seq<char>, secret: Seq<char>) -> Result<Seq<char>, Seq<char>> {
    let key = sha256(vstd::utf8::encode_utf8(secret));
    match base64_decode(encrypted) {
        None => Err("Base64 decode error: "@ + base64_error_text(encrypted)),
        Some(combined) => if combined.len() < NONCE_LEN {
            Err("Invalid encrypted data: too short"@)
        } else {
            match aes256gcm_open(key, combined.take(NONCE_LEN as int), combined.skip(NONCE_LEN as int)) {
                None => Err("Decryption failed: aead::Error"@),
                Some(p) => if vstd::utf8::valid_utf8(p) {
                    Ok(vstd::utf8::decode_utf8(p))
                } else {
                    Err("UTF-8 decode error: "@ + utf8_error_text(p))
                },
            }
        },
    }
}

/// A provider's stored configuration.
#[derive(Debug, Clone)]
pub struct ProviderConfig {
    pub id: u128,
    pub user_id: u128,
    pub provider_type: String,
    pub name: String,
    pub api_key_encrypted: String,
    pub base_url: Option<String>,
    pub priority: i32,
    pub is_active: bool,
    pub rate_limit: Option<i32>,
    /// `f64` bit pattern.
    pub monthly_quota: Option<u64>,
    /// `f64` bit pattern.
    pub used_quota: u64,
    /// The user groups that may use this provider; empty means everyone.
    pub allowed_groups: Vec<String>,
    pub created_at: Timestamp,
    pub updated_at: Timestamp,
}

/// Calls `uuid::Uuid::new_v4()` and returns its 128-bit value. The id is
/// random, so nothing is stated of it.
#[verifier::external_body]
fn new_config_id() -> (r: u128) {
    uuid::Uuid::new_v4().as_u128()
}

/// The names of the supported provider types.
pub open spec fn supported_provider(t: Seq<char>) -> bool {
    t == "openai"@ || t == "anthropic"@ || t == "google"@
}

impl ProviderConfig {
    /// Whether `provider_type` names a supported provider type.
    pub fn is_valid_provider_type(provider_type: &str) -> (r: bool)
        ensures
            r == supported_provider(provider_type@),
    {
        str_eq(provider_type, "openai") || str_eq(provider_type, "anthropic") || str_eq(provider_type, "google")
    }

    /// A new active configuration with a fresh id, created now, with priority
    /// zero, no base URL, no limits and nothing used.
    pub fn new(user_id: u128, provider_type: String, name: String, api_key_encrypted: String) -> (r: Self)
        ensures
            r.user_id == user_id,
            r.provider_type@ == provider_type@,
            r.name@ == name@,
            r.api_key_encrypted@ == api_key_encrypted@,
            r.base_url is None,
            r.priority == 0,
            r.is_active,
            r.rate_limit is None,
            r.monthly_quota is None,
            r.used_quota == 0,
            r.allowed_groups@.len() == 0,
            r.created_at == r.updated_at,
    {
        let now = now_timestamp();
        ProviderConfig {
            id: new_config_id(),
            user_id,
            provider_type,
            name,
            api_key_encrypted,
            base_url: None,
            priority: 0,
            is_active: true,
            rate_limit: None,
            monthly_quota: None,
            used_quota: 0,
            allowed_groups: Vec::new(),
            created_at: now,
            updated_at: now,
        }
    }

    /// Applies an update made at `now`: each given field replaces the stored
    /// one (a given `None` clears an optional field), the others stay, and
    /// the update time becomes `now`.
    pub fn apply_update(
        &mut self,
        name: Option<String>,
        api_key_encrypted: Option<String>,
        base_url: Option<Option<String>>,
        priority: Option<i32>,
        is_active: Option<bool>,
        rate_limit: Option<Option<i32>>,
        monthly_quota: Option<Option<u64>>,
        allowed_groups: Option<Vec<String>>,
        now: Timestamp,
    )
        ensures
            final(self).id == old(self).id,
            final(self).user_id == old(self).user_id,
            final(self).provider_type@ == old(self).provider_type@,
            final(self).name@ == (match name { Some(n) => n@, None => old(self).name@ }),
            final(self).api_key_encrypted@ == (match api_key_encrypted {
                Some(k) => k@,
                None => old(self).api_key_encrypted@,
            }),
            final(self).base_url == (match base_url { Some(u) => u, None => old(self).base_url }),
            final(self).priority == (match priority { Some(p) => p, None => old(self).priority }),
            final(self).is_active == (match is_active { Some(a) => a, None => old(self).is_active }),
            final(self).rate_limit == (match rate_limit { Some(l) => l, None => old(self).rate_limit }),
            final(self).monthly_quota == (match monthly_quota { Some(q) => q, None => old(self).monthly_quota }),
            final(self).used_quota == old(self).used_quota,
            final(self).allowed_groups@ == (match allowed_groups {
                Some(g) => g@,
                None => old(self).allowed_groups@,
            }),
            final(self).created_at == old(self).created_at,
            final(self).updated_at == now,
    {
        if let Some(n) = name {
            self.name = n;
        }
        if let Some(k) = api_key_encrypted {
            self.api_key_encrypted = k;
        }
        if let Some(u) = base_url {
            self.base_url = u;
        }
        if let Some(p) = priority {
            self.priority = p;
        }
        if let Some(a) = is_active {
            self.is_active = a;
        }
        if let Some(l) = rate_limit {
            self.rate_limit = l;
        }
        if let Some(q) = monthly_quota {
            self.monthly_quota = q;
        }
        if let Some(g) = allowed_groups {
            self.allowed_groups = g;
        }
        self.updated_at = now;
    }

    /// Encrypts an API key with a key derived from `secret`, under a fresh
    /// random nonce. The stored bytes are the 12-byte nonce, the ciphertext
    /// (as long as the key) and the 16-byte tag. Whatever the nonce,
    /// decrypting the result with the same secret gives the API key back.
    pub fn encrypt_api_key(api_key: &str, secret: &str) -> (r: String)
        requires
            vstd::utf8::encode_utf8(api_key@).len() <= MAX_PLAINTEXT,
        ensures
            decrypt_spec(r@, secret@) == Ok::<Seq<char>, Seq<char>>(api_key@),
            base64_decode(r@) matches Some(b) && b.len() == NONCE_LEN + vstd::utf8::encode_utf8(api_key@).len() + TAG_LEN,
    {
        let key = sha256_digest(secret.as_bytes());
        let nonce = random_nonce();
        let plaintext = api_key.as_bytes();
        let sealed = aes_seal(key.as_slice(), nonce.as_slice(), plaintext);
        let mut combined: Vec<u8> = nonce.clone();
        let mut i: usize = 0;
        while i < sealed.len()
            invariant
                i <= sealed.len(),
                combined@ == nonce@ + sealed@.take(i as int),
            decreases sealed.len() - i,
        {
            combined.push(sealed[i]);
            assert(sealed@.take(i + 1) =~= sealed@.take(i as int).push(sealed@[i as int]));
            i = i + 1;
        }
        proof {
            assert(sealed@.take(sealed@.len() as int) =~= sealed@);
            assert(combined@.take(NONCE_LEN as int) =~= nonce@);
            assert(combined@.skip(NONCE_LEN as int) =~= sealed@);
            vstd::utf8::encode_utf8_valid_utf8(api_key@);
            vstd::utf8::encode_utf8_decode_utf8(api_key@);
        }
        base64_encode_bytes(combined.as_slice())
    }

    /// Decrypts a stored API key with the key derived from `secret`.
    pub fn decrypt_api_key(encrypted: &str, secret: &str) -> (r: Result<String, String>)
        ensures
            match r {
                Ok(k) => decrypt_spec(encrypted@, secret@) == Ok::<Seq<char>, Seq<char>>(k@),
                Err(e) => decrypt_spec(encrypted@, secret@) == Err::<Seq<char>, Seq<char>>(e@),
            },
    {
        let key = sha256_digest(secret.as_bytes());
        let combined = match base64_decode_text(encrypted) {
            Ok(v) => v,
            Err(e) => {
                let mut m = "Base64 decode error: ".to_string();
                m.append(e.as_str());
                return Err(m);
            },
        };
        if combined.len() < NONCE_LEN {
            return Err("Invalid encrypted data: too short".to_string());
        }
        let nonce = slice_range(&combined, 0, NONCE_LEN);
        let ciphertext = slice_range(&combined, NONCE_LEN, combined.len());
        assert(nonce@ =~= combined@.take(NONCE_LEN as int));
        assert(ciphertext@ =~= combined@.skip(NONCE_LEN as int));
        match aes_open(key.as_slice(), nonce.as_slice(), ciphertext.as_slice()) {
            None => Err("Decryption failed: aead::Error".to_string()),
            Some(p) => match utf8_string(p) {
                Ok(s) => Ok(s),
                Err(e) => {
                    let mut m = "UTF-8 decode error: ".to_string();
                    m.append(e.as_str());
                    Err(m)
                },
            },
        }
    }
}

/// The bytes `v[from..to]`.
fn slice_range(v: &Vec<u8>, from: usize, to: usize) -> (r: Vec<u8>)
    requires
        from <= to <= v@.len(),
    ensures
        r@ == v@.subrange(from as int, to as int),
{
    let mut out: Vec<u8> = Vec::new();
    let mut i = from;
    while i < to
        invariant
            from <= i <= to <= v@.len(),
            out@ == v@.subrange(from as int, i as int),
        decreases to - i,
    {
        out.push(v[i]);
        assert(v@.subrange(from as int, i + 1) =~= v@.subrange(from as int, i as int).push(v@[i as int]));
        i = i + 1;
    }
    out
}

} // verus!

verus! {

/// The data needed to store a provider configuration.
#[derive(Debug, Clone)]
pub struct CreateProviderConfig {
    pub provider_type: String,
    pub name: String,
    pub api_key_encrypted: String,
    pub base_url: Option<String>,
    pub priority: i32,
    pub is_active: bool,
    pub rate_limit: Option<i32>,
    /// `f64` bit pattern.
    pub monthly_quota: Option<u64>,
    /// `f64` bit pattern.
    pub used_quota: u64,
    pub allowed_groups: Vec<String>,
}

/// A request to configure a provider. The API key is given in plain text;
/// the owner defaults to the caller.
#[derive(Debug, Clone)]
pub struct CreateProviderConfigRequest {
    pub user_id: Option<u128>,
    pub provider_type: String,
    pub name: String,
    pub api_key: String,
    pub base_url: Option<String>,
    pub priority: Option<i32>,
    pub rate_limit: Option<i32>,
    /// `f64` bit pattern.
    pub monthly_quota: Option<u64>,
    pub allowed_groups: Option<Vec<String>>,
}

impl CreateProviderConfig {
    /// The configuration that `req` asks for, with its API key encrypted
    /// under `secret`: active, nothing used, priority zero and open to every
    /// group where the request does not say. `None` when the provider type
    /// is not supported.
    pub fn from_request(req: CreateProviderConfigRequest, secret: &str) -> (r: Option<CreateProviderConfig>)
        requires
            vstd::utf8::encode_utf8(req.api_key@).len() <= MAX_PLAINTEXT,
        ensures
            r is None <==> !supported_provider(req.provider_type@),
            r matches Some(c) ==> {
                &&& c.provider_type@ == req.provider_type@
                &&& c.name@ == req.name@
                &&& decrypt_spec(c.api_key_encrypted@, secret@) == Ok::<Seq<char>, Seq<char>>(req.api_key@)
                &&& c.base_url == req.base_url
                &&& c.priority == (match req.priority { Some(p) => p, None => 0 })
                &&& c.is_active
                &&& c.rate_limit == req.rate_limit
                &&& c.monthly_quota == req.monthly_quota
                &&& c.used_quota == 0
                &&& c.allowed_groups@ == (match req.allowed_groups { Some(g) => g@, None => Seq::empty() })
            },
    {
        if !ProviderConfig::is_valid_provider_type(req.provider_type.as_str()) {
            return None;
        }
        let api_key_encrypted = ProviderConfig::encrypt_api_key(req.api_key.as_str(), secret);
        let priority = match req.priority {
            Some(p) => p,
            None => 0,
        };
        let allowed_groups = match req.allowed_groups {
            Some(g) => g,
            None => Vec::new(),
        };
        Some(CreateProviderConfig {
            provider_type: req.provider_type,
            name: req.name,
            api_key_encrypted,
            base_url: req.base_url,
            priority,
            is_active: true,
            rate_limit: req.rate_limit,
            monthly_quota: req.monthly_quota,
            used_quota: 0,
            allowed_groups,
        })
    }
}

/// A request to change a provider configuration; absent fields stay.
#[derive(Debug, Clone)]
pub struct UpdateProviderConfigRequest {
    pub name: Option<String>,
    pub api_key: Option<String>,
    pub base_url: Option<String>,
    pub priority: Option<i32>,
    pub is_active: Option<bool>,
    pub rate_limit: Option<i32>,
    /// `f64` bit pattern.
    pub monthly_quota: Option<u64>,
    pub allowed_groups: Option<Vec<String>>,
}

/// What an administrator sees of a provider configuration: everything but
/// the encrypted key.
#[derive(Debug, Clone)]
pub struct ProviderConfigInfo {
    pub id: u128,
    pub user_id: u128,
    pub provider_type: String,
    pub name: String,
    pub base_url: Option<String>,
    pub priority: i32,
    pub is_active: bool,
    pub rate_limit: Option<i32>,
    /// `f64` bit pattern.
    pub monthly_quota: Option<u64>,
    /// `f64` bit pattern.
    pub used_quota: u64,
    pub created_at: Timestamp,
    pub updated_at: Timestamp,
}

impl ProviderConfigInfo {
    /// The configuration without its encrypted key.
    pub fn from_config(config: ProviderConfig) -> (r: ProviderConfigInfo)
        ensures
            r.id == config.id,
            r.user_id == config.user_id,
            r.provider_type@ == config.provider_type@,
            r.name@ == config.name@,
            r.base_url == config.base_url,
            r.priority == config.priority,
            r.is_active == config.is_active,
            r.rate_limit == config.rate_limit,
            r.monthly_quota == config.monthly_quota,
            r.used_quota == config.used_quota,
            r.created_at == config.created_at,
            r.updated_at == config.updated_at,
    {
        ProviderConfigInfo {
            id: config.id,
            user_id: config.user_id,
            provider_type: config.provider_type,
            name: config.name,
            base_url: config.base_url,
            priority: config.priority,
            is_active: config.is_active,
            rate_limit: config.rate_limit,
            monthly_quota: config.monthly_quota,
            used_quota: config.used_quota,
            created_at: config.created_at,
            updated_at: config.updated_at,
        }
    }
}

/// Whether a provider open to `allowed_groups` may serve a user in
/// `user_groups`: it is open to everyone, or the two share a group.
pub open spec fn groups_allow_spec(allowed_groups: Seq<String>, user_groups: Seq<String>) -> bool {
    allowed_groups.len() == 0 || exists|i: int, j: int|
        0 <= i < allowed_groups.len() && 0 <= j < user_groups.len()
            && #[trigger] allowed_groups[i]@ == #[trigger] user_groups[j]@
}

/// Whether a provider open to `allowed_groups` may serve a user in
/// `user_groups`.
pub fn groups_allow(allowed_groups: &Vec<String>, user_groups: &Vec<String>) -> (r: bool)
    ensures
        r == groups_allow_spec(allowed_groups@, user_groups@),
{
    if allowed_groups.len() == 0 {
        return true;
    }
    let mut i: usize = 0;
    while i < allowed_groups.len()
        invariant
            i <= allowed_groups@.len(),
            forall|a: int, b: int| 0 <= a < i && 0 <= b < user_groups@.len()
                ==> #[trigger] allowed_groups@[a]@ != #[trigger] user_groups@[b]@,
        decreases allowed_groups.len() - i,
    {
        let mut j: usize = 0;
        while j < user_groups.len()
            invariant
                i < allowed_groups@.len(),
                j <= user_groups@.len(),
                forall|a: int, b: int| 0 <= a < i && 0 <= b < user_groups@.len()
                    ==> #[trigger] allowed_groups@[a]@ != #[trigger] user_groups@[b]@,
                forall|b: int| 0 <= b < j ==> allowed_groups@[i as int]@ != #[trigger] user_groups@[b]@,
            decreases user_groups.len() - j,
        {
            if str_eq(allowed_groups[i].as_str(), user_groups[j].as_str()) {
                return true;
            }
            j = j + 1;
        }
        i = i + 1;
    }
    false
}

/// Usage totals of one user, by model and by provider.
#[derive(Debug, Clone)]
pub struct UsageStats {
    pub user_id: u128,
    pub total_requests: i64,
    pub total_tokens: i64,
    /// `f64` bit pattern.
    pub total_cost: u64,
    pub by_model: Vec<ModelUsageStats>,
    pub by_provider: Vec<ProviderUsageStats>,
}

/// Usage totals of one model.
#[derive(Debug, Clone)]
pub struct ModelUsageStats {
    pub model: String,
    pub requests: i64,
    pub prompt_tokens: i64,
    pub completion_tokens: i64,
    pub total_tokens: i64,
    /// `f64` bit pattern.
    pub cost: u64,
}

/// Usage totals of one provider.
#[derive(Debug, Clone)]
pub struct ProviderUsageStats {
    pub provider: String,
    pub requests: i64,
    pub total_tokens: i64,
    /// `f64` bit pattern.
    pub cost: u64,
}

} // verus!
