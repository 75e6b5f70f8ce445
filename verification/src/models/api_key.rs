//! API keys: validity, model allowlists and key generation.
use vstd::prelude::*;
use crate::clock::{Timestamp, before, now_timestamp};
use crate::json::{json_string_list, json_of_string_list, parse_string_list, encode_string_list};
use crate::text::str_eq;
use rand::Rng;

verus! {

/// The characters a generated key is drawn from.
pub const KEY_CHARSET: &'static str = "ABCDEFGHIJKLMNOPQRSTUVWXYZabcdefghijklmnopqrstuvwxyz0123456789";

/// The number of random characters in a generated key.
pub const KEY_LEN: usize = 48;

/// The prefix of every generated key.
pub const KEY_PREFIX: &'static str = "sk-manti-";

/// An API key used to authenticate LLM requests.
#[derive(Debug, Clone)]
pub struct ApiKey {
    pub id: u128,
    pub user_id: u128,
    pub name: String,
    pub key: String,
    pub is_active: bool,
    pub last_used: Option<Timestamp>,
    pub expires_at: Option<Timestamp>,
    pub created_at: Timestamp,
    pub updated_at: Timestamp,
    pub rate_limit_rpm: Option<i32>,
    /// The model allowlist as JSON text (an array of model names), if any.
    pub allowed_models: Option<String>,
}

/// The data needed to store a new API key.
#[derive(Debug, Clone)]
pub struct CreateApiKey {
    pub user_id: u128,
    pub name: String,
    pub key: String,
    pub is_active: bool,
    pub expires_at: Option<Timestamp>,
    pub rate_limit_rpm: Option<i32>,
    /// The model allowlist as JSON text, if any.
    pub allowed_models: Option<String>,
}

/// A request to create an API key.
#[derive(Debug, Clone)]
pub struct CreateApiKeyRequest {
    pub name: String,
    pub expires_in_days: Option<i64>,
    pub rate_limit_rpm: Option<i32>,
    pub allowed_models: Option<Vec<String>>,
}

/// What a listing shows of an API key.
#[derive(Debug, Clone)]
pub struct ApiKeyInfo {
    pub id: u128,
    pub name: String,
    pub key: String,
    pub is_active: bool,
    pub last_used: Option<Timestamp>,
    pub expires_at: Option<Timestamp>,
    pub created_at: Timestamp,
    pub rate_limit_rpm: Option<i32>,
    pub allowed_models: Option<Vec<String>>,
}

/// A key with expiry `expires_at` has expired at `now` when `now` is later.
pub open spec fn expired_at(expires_at: Option<Timestamp>, now: Timestamp) -> bool {
    match expires_at {
        Some(e) => before(e, now),
        None => false,
    }
}

/// A key is usable at `now` when it is active and has not expired.
pub open spec fn key_valid_at(k: ApiKey, now: Timestamp) -> bool {
    k.is_active && !expired_at(k.expires_at, now)
}

/// A parsed allowlist permits `model` when it lists it; a list that could not
/// be read permits every model.
pub open spec fn allowlist_permits(parsed: Option<Seq<Seq<char>>>, model: Seq<char>) -> bool {
    match parsed {
        Some(list) => list.contains(model),
        None => true,
    }
}

/// Whether an allowlist stored as JSON text permits `model`; no allowlist
/// permits every model.
pub open spec fn model_allowed_by(allowed: Option<Seq<char>>, model: Seq<char>) -> bool {
    match allowed {
        Some(text) => allowlist_permits(json_string_list(text), model),
        None => true,
    }
}

/// The allowlist read from the stored JSON text.
pub open spec fn allowed_models_of(allowed: Option<Seq<char>>) -> Option<Seq<Seq<char>>> {
    match allowed {
        Some(text) => json_string_list(text),
        None => None,
    }
}

/// A character a generated key may contain.
pub open spec fn key_char(c: char) -> bool {
    ('A' <= c <= 'Z') || ('a' <= c <= 'z') || ('0' <= c <= '9')
}

/// The shape of a generated key: the prefix, then `KEY_LEN` characters of
/// the charset.
pub open spec fn generated_key_shape(k: Seq<char>) -> bool {
    &&& k.len() == KEY_PREFIX@.len() + KEY_LEN
    &&& KEY_PREFIX@.is_prefix_of(k)
    &&& forall|i: int| KEY_PREFIX@.len() <= i < k.len() ==> key_char(#[trigger] k[i])
}

/// Calls `rand::thread_rng().gen_range(0..bound)`, which panics on an empty
/// range. The result is random: only that it lies in the range is stated.
#[verifier::external_body]
fn random_below(bound: usize) -> (r: usize)
    requires
        bound > 0,
    ensures
        r < bound,
{
    rand::thread_rng().gen_range(0..bound)
}

/// The key spelled by `indices` into the charset: the prefix, then the
/// charset character at each index, in order.
pub open spec fn key_of_indices(indices: Seq<usize>) -> Seq<char> {
    KEY_PREFIX@ + indices.map_values(|i: usize| KEY_CHARSET@[i as int])
}

/// The key spelled by `KEY_LEN` indices into the 62-character charset.
pub fn key_from_indices(indices: &Vec<usize>) -> (r: String)
    requires
        indices@.len() == KEY_LEN,
        forall|j: int| 0 <= j < indices@.len() ==> #[trigger] indices@[j] < 62,
    ensures
        r@ == key_of_indices(indices@),
        generated_key_shape(r@),
{
    proof {
        reveal_strlit("ABCDEFGHIJKLMNOPQRSTUVWXYZabcdefghijklmnopqrstuvwxyz0123456789");
        reveal_strlit("sk-manti-");
    }
    let charset = KEY_CHARSET;
    assert(forall|i: int| 0 <= i < charset@.len() ==> key_char(#[trigger] charset@[i]));
    let mut key = String::from_str(KEY_PREFIX);
    let mut i: usize = 0;
    while i < KEY_LEN
        invariant
            charset@ == KEY_CHARSET@,
            charset@.len() == 62,
            forall|j: int| 0 <= j < charset@.len() ==> key_char(#[trigger] charset@[j]),
            indices@.len() == KEY_LEN,
            forall|j: int| 0 <= j < indices@.len() ==> #[trigger] indices@[j] < 62,
            i <= KEY_LEN,
            key@ == KEY_PREFIX@ + indices@.take(i as int).map_values(|k: usize| KEY_CHARSET@[k as int]),
        decreases KEY_LEN - i,
    {
        let idx = indices[i];
        assert(indices@[i as int] < 62);
        let c = charset.substring_char(idx, idx + 1);
        let ghost old_key = key@;
        key.append(c);
        proof {
            assert(c@ =~= seq![KEY_CHARSET@[idx as int]]);
            assert(indices@.take(i + 1).map_values(|k: usize| KEY_CHARSET@[k as int]) =~= indices@.take(
                i as int,
            ).map_values(|k: usize| KEY_CHARSET@[k as int]).push(KEY_CHARSET@[idx as int]));
            assert(key@ =~= KEY_PREFIX@ + indices@.take(i + 1).map_values(|k: usize| KEY_CHARSET@[k as int]));
        }
        i = i + 1;
    }
    proof {
        assert(indices@.take(KEY_LEN as int) =~= indices@);
        let k = key@;
        assert(KEY_PREFIX@.is_prefix_of(k)) by {
            assert forall|j: int| 0 <= j < KEY_PREFIX@.len() implies k[j] == KEY_PREFIX@[j] by {}
        }
        assert forall|j: int| KEY_PREFIX@.len() <= j < k.len() implies key_char(#[trigger] k[j]) by {
            let m = j - KEY_PREFIX@.len();
            assert(k[j] == KEY_CHARSET@[indices@[m] as int]);
            assert(indices@[m] < 62);
        }
    }
    key
}

/// A new random key: `sk-manti-` followed by 48 characters drawn uniformly
/// from the charset.
fn generate_api_key() -> (r: String)
    ensures
        generated_key_shape(r@),
        exists|indices: Seq<usize>| indices.len() == KEY_LEN && r@ == #[trigger] key_of_indices(indices),
{
    let mut indices: Vec<usize> = Vec::new();
    let mut i: usize = 0;
    while i < KEY_LEN
        invariant
            i <= KEY_LEN,
            indices@.len() == i,
            forall|j: int| 0 <= j < indices@.len() ==> #[trigger] indices@[j] < 62,
        decreases KEY_LEN - i,
    {
        let idx = random_below(62);
        indices.push(idx);
        i = i + 1;
    }
    let key = key_from_indices(&indices);
    assert(key@ == key_of_indices(indices@));
    key
}

/// Whether a parsed allowlist permits `model`: a list permits the models it
/// names, and no list (one that could not be read) permits every model.
pub fn model_in_allowlist(parsed: Option<Vec<String>>, model: &str) -> (r: bool)
    ensures
        r == allowlist_permits(parsed.deep_view(), model@),
{
    match parsed {
        None => true,
        Some(models) => {
            let ghost mv = models.deep_view();
            let mut found = false;
            let mut i: usize = 0;
            while i < models.len()
                invariant
                    mv == models.deep_view(),
                    i <= models.len(),
                    found == mv.take(i as int).contains(model@),
                decreases models.len() - i,
            {
                let eq = str_eq(models[i].as_str(), model);
                proof {
                    let t = mv.take(i as int);
                    let t1 = mv.take(i + 1);
                    assert(t1 == t.push(mv[i as int]));
                    if eq {
                        assert(t1[i as int] == model@);
                    } else if !found {
                        assert(!t1.contains(model@)) by {
                            if t1.contains(model@) {
                                let j = choose|j: int| 0 <= j < t1.len() && t1[j] == model@;
                                if j < i {
                                    assert(t[j] == model@);
                                }
                            }
                        }
                    } else {
                        let j = choose|j: int| 0 <= j < t.len() && t[j] == model@;
                        assert(t1[j] == model@);
                    }
                }
                if eq {
                    found = true;
                }
                i = i + 1;
            }
            proof {
                assert(mv.take(mv.len() as int) == mv);
            }
            found
        },
    }
}

impl CreateApiKey {
    /// A new key record for `user_id`: a freshly generated key, active, with
    /// the given expiry, a rate limit of 60 requests per minute unless one is
    /// given, and the allowlist stored as JSON text.
    pub fn generate(
        user_id: u128,
        name: String,
        expires_at: Option<Timestamp>,
        rate_limit_rpm: Option<i32>,
        allowed_models: Option<Vec<String>>,
    ) -> (r: Self)
        ensures
            r.user_id == user_id,
            r.name@ == name@,
            generated_key_shape(r.key@),
            exists|indices: Seq<usize>| indices.len() == KEY_LEN && r.key@ == #[trigger] key_of_indices(indices),
            r.is_active,
            r.expires_at == expires_at,
            r.rate_limit_rpm == Some(
                match rate_limit_rpm {
                    Some(l) => l,
                    None => 60i32,
                },
            ),
            r.allowed_models.deep_view() == (match allowed_models {
                Some(v) => Some(json_of_string_list(v.deep_view())),
                None => None,
            }),
            match allowed_models {
                Some(v) => json_string_list(r.allowed_models->0@) == Some(v.deep_view()),
                None => true,
            },
            forall|model: Seq<char>| #[trigger] model_allowed_by(r.allowed_models.deep_view(), model)
                == match allowed_models {
                    Some(v) => v.deep_view().contains(model),
                    None => true,
                },
    {
        let key = generate_api_key();
        let allowed_models_json = match &allowed_models {
            Some(models) => Some(encode_string_list(models)),
            None => None,
        };
        let limit = match rate_limit_rpm {
            Some(l) => l,
            None => 60,
        };
        CreateApiKey {
            user_id,
            name,
            key,
            is_active: true,
            expires_at,
            rate_limit_rpm: Some(limit),
            allowed_models: allowed_models_json,
        }
    }
}

impl ApiKey {
    /// Whether the key has expired at `now`.
    pub fn is_expired_at(&self, now: Timestamp) -> (r: bool)
        ensures
            r == expired_at(self.expires_at, now),
    {
        match self.expires_at {
            Some(e) => e.is_before(&now),
            None => false,
        }
    }

    /// Whether the key has expired, by the clock. A key without expiry never
    /// expires; otherwise the answer is that of `is_expired_at` at some
    /// instant read during the call.
    pub fn is_expired(&self) -> (r: bool)
        ensures
            self.expires_at is None ==> !r,
            exists|now: Timestamp| #![trigger expired_at(self.expires_at, now)] r == expired_at(self.expires_at, now),
    {
        let now = now_timestamp();
        self.is_expired_at(now)
    }

    /// Whether the key is usable at `now`: active and not expired.
    pub fn is_valid_at(&self, now: Timestamp) -> (r: bool)
        ensures
            r == key_valid_at(*self, now),
    {
        self.is_active && !self.is_expired_at(now)
    }

    /// Whether the key is usable, by the clock.
    pub fn is_valid(&self) -> (r: bool)
        ensures
            r ==> self.is_active,
            (self.is_active && self.expires_at is None) ==> r,
            exists|now: Timestamp| r == #[trigger] key_valid_at(*self, now),
    {
        let now = now_timestamp();
        let r = self.is_valid_at(now);
        assert(r == key_valid_at(*self, now));
        r
    }

    /// Whether the key may be used with `model`.
    pub fn is_model_allowed(&self, model: &str) -> (r: bool)
        ensures
            r == model_allowed_by(self.allowed_models.deep_view(), model@),
    {
        match &self.allowed_models {
            Some(text) => model_in_allowlist(parse_string_list(text.as_str()), model),
            None => true,
        }
    }

    /// The allowlist, when there is one and it can be read.
    pub fn get_allowed_models(&self) -> (r: Option<Vec<String>>)
        ensures
            r.deep_view() == allowed_models_of(self.allowed_models.deep_view()),
    {
        match &self.allowed_models {
            Some(text) => parse_string_list(text.as_str()),
            None => None,
        }
    }
}

impl ApiKeyInfo {
    /// The listing entry of a key, with its allowlist read from JSON.
    pub fn from_api_key(k: ApiKey) -> (r: ApiKeyInfo)
        ensures
            r.id == k.id,
            r.name@ == k.name@,
            r.key@ == k.key@,
            r.is_active == k.is_active,
            r.last_used == k.last_used,
            r.expires_at == k.expires_at,
            r.created_at == k.created_at,
            r.rate_limit_rpm == k.rate_limit_rpm,
            r.allowed_models.deep_view() == allowed_models_of(k.allowed_models.deep_view()),
    {
        let allowed_models = k.get_allowed_models();
        ApiKeyInfo {
            id: k.id,
            name: k.name,
            key: k.key,
            is_active: k.is_active,
            last_used: k.last_used,
            expires_at: k.expires_at,
            created_at: k.created_at,
            rate_limit_rpm: k.rate_limit_rpm,
            allowed_models,
        }
    }
}

} // verus!
