//! Authentication: who a request comes from, what each kind of caller may
//! do, and the contents of the JSON Web Tokens issued to users.
use vstd::prelude::*;
use crate::clock::{Timestamp, now_timestamp};
use crate::error::MantiError;
use crate::models::api_key::ApiKey;
use crate::models::user::User;
use crate::text::{strip_prefix_spec, strip_prefix_str, starts_with_str};

verus! {

/// HTTP 401.
pub const UNAUTHORIZED: u16 = 401;

/// HTTP 403.
pub const FORBIDDEN: u16 = 403;

/// The secret used when none is configured.
pub const DEFAULT_JWT_SECRET: &'static str = "your-secret-key-here";

/// The token lifetime in hours when none is configured.
pub const DEFAULT_EXPIRATION_HOURS: i64 = 24;

/// The prefix that marks a bearer token as an API key.
pub const API_KEY_PREFIX: &'static str = "sk-manti-";

/// The largest time span, in seconds, that `chrono::TimeDelta` holds.
pub const MAX_DELTA_SECS: i64 = 9_223_372_036_854_775;

/// The earliest Unix second `chrono` can represent.
pub const MIN_TIMESTAMP: i64 = -8_334_601_315_200;

/// The latest Unix second `chrono` can represent.
pub const MAX_TIMESTAMP: i64 = 8_210_266_876_799;

/// The claims a user token carries.
#[derive(Debug, Clone)]
pub struct Claims {
    /// The user's id.
    pub sub: u128,
    pub email: String,
    pub username: String,
    pub is_admin: bool,
    /// Expiry, in Unix seconds.
    pub exp: i64,
    /// Issue time, in Unix seconds.
    pub iat: i64,
}

/// Who a request comes from.
#[derive(Debug, Clone)]
pub enum AuthContext {
    /// A user with a verified token.
    User(Claims),
    /// An API key of a user.
    ApiKey { user_id: u128, api_key_id: u128 },
    /// Nobody known.
    Anonymous,
}

/// The user a context speaks for.
pub open spec fn context_user(c: AuthContext) -> Option<u128> {
    match c {
        AuthContext::User(claims) => Some(claims.sub),
        AuthContext::ApiKey { user_id, .. } => Some(user_id),
        AuthContext::Anonymous => None,
    }
}

impl AuthContext {
    /// The user the request comes from, if known.
    pub fn user_id(&self) -> (r: Option<u128>)
        ensures
            r == context_user(*self),
    {
        match self {
            AuthContext::User(claims) => Some(claims.sub),
            AuthContext::ApiKey { user_id, .. } => Some(*user_id),
            AuthContext::Anonymous => None,
        }
    }

    /// The token's claims; only a user token qualifies (401 otherwise).
    pub fn require_user(&self) -> (r: Result<&Claims, u16>)
        ensures
            match *self {
                AuthContext::User(c) => r == Ok::<&Claims, u16>(&c),
                _ => r == Err::<&Claims, u16>(UNAUTHORIZED),
            },
    {
        match self {
            AuthContext::User(claims) => Ok(claims),
            _ => Err(UNAUTHORIZED),
        }
    }

    /// The user the request comes from; an anonymous request is refused
    /// with 401.
    pub fn require_auth(&self) -> (r: Result<u128, u16>)
        ensures
            match context_user(*self) {
                Some(u) => r == Ok::<u128, u16>(u),
                None => r == Err::<u128, u16>(UNAUTHORIZED),
            },
    {
        match self.user_id() {
            Some(u) => Ok(u),
            None => Err(UNAUTHORIZED),
        }
    }

    /// The claims of an administrator's token; anything else is refused
    /// with 403.
    pub fn require_admin(&self) -> (r: Result<&Claims, u16>)
        ensures
            match *self {
                AuthContext::User(c) => if c.is_admin {
                    r == Ok::<&Claims, u16>(&c)
                } else {
                    r == Err::<&Claims, u16>(FORBIDDEN)
                },
                _ => r == Err::<&Claims, u16>(FORBIDDEN),
            },
    {
        match self {
            AuthContext::User(claims) => {
                if claims.is_admin {
                    Ok(claims)
                } else {
                    Err(FORBIDDEN)
                }
            },
            _ => Err(FORBIDDEN),
        }
    }
}

/// The value of a decimal digit.
pub open spec fn digit_value(c: char) -> int {
    (c as int) - ('0' as int)
}

/// The value of a string of decimal digits.
pub open spec fn digits_value(s: Seq<char>) -> int
    decreases s.len(),
{
    if s.len() == 0 {
        0
    } else {
        digits_value(s.drop_last()) * 10 + digit_value(s.last())
    }
}

/// `s` is made of ASCII digits only.
pub open spec fn all_digits(s: Seq<char>) -> bool {
    forall|i: int| 0 <= i < s.len() ==> '0' <= #[trigger] s[i] <= '9'
}

/// `s` without a leading sign.
pub open spec fn unsigned_part(s: Seq<char>) -> Seq<char> {
    if s.len() > 0 && (s[0] == '-' || s[0] == '+') {
        s.drop_first()
    } else {
        s
    }
}

/// What `str::parse::<i64>` reads from `s`: an optional sign, then at least
/// one digit, all digits, and the value in range.
pub open spec fn parse_i64_spec(s: Seq<char>) -> Option<i64> {
    let neg = s.len() > 0 && s[0] == '-';
    let ds = unsigned_part(s);
    let v = if neg {
        -digits_value(ds)
    } else {
        digits_value(ds)
    };
    if ds.len() > 0 && all_digits(ds) && i64::MIN <= v <= i64::MAX {
        Some(v as i64)
    } else {
        None
    }
}

proof fn lemma_digits_grow(s: Seq<char>, k: int)
    requires
        all_digits(s),
        0 <= k <= s.len(),
    ensures
        0 <= digits_value(s.take(k)) <= digits_value(s),
    decreases s.len() - k,
{
    if k < s.len() {
        lemma_digits_grow(s, k + 1);
        assert(s.take(k + 1).drop_last() =~= s.take(k));
        assert(s.take(k + 1).last() == s[k]);
        assert('0' <= s[k] <= '9');
    } else {
        assert(s.take(k) =~= s);
        lemma_digits_nonneg(s);
    }
}

proof fn lemma_digits_nonneg(s: Seq<char>)
    requires
        all_digits(s),
    ensures
        digits_value(s) >= 0,
    decreases s.len(),
{
    if s.len() > 0 {
        assert(all_digits(s.drop_last())) by {
            assert forall|i: int| 0 <= i < s.drop_last().len() implies '0' <= #[trigger] s.drop_last()[i] <= '9' by {
                assert(s.drop_last()[i] == s[i]);
            }
        }
        lemma_digits_nonneg(s.drop_last());
        assert('0' <= s[s.len() - 1] <= '9');
    }
}

/// Reads an `i64` as `str::parse::<i64>` does: an optional sign, then
/// decimal digits only, with the value in range.
fn parse_i64(s: &str) -> (r: Option<i64>)
    ensures
        r == parse_i64_spec(s@),
{
    let n = s.unicode_len();
    let ghost sv = s@;
    let neg = n > 0 && s.get_char(0) == '-';
    let start: usize = if n > 0 && (s.get_char(0) == '-' || s.get_char(0) == '+') { 1 } else { 0 };
    let ghost ds = unsigned_part(sv);
    assert(ds.len() == n - start);
    assert(forall|j: int| 0 <= j < ds.len() ==> ds[j] == sv[start + j]);
    if start >= n {
        return None;
    }
    let limit: i128 = 9_223_372_036_854_775_808;
    let mut acc: i128 = 0;
    let mut i: usize = start;
    while i < n
        invariant
            n == sv.len(),
            sv == s@,
            ds == unsigned_part(sv),
            start <= i <= n,
            ds.len() == n - start,
            forall|j: int| 0 <= j < ds.len() ==> ds[j] == sv[start + j],
            all_digits(ds.take(i - start)),
            acc == digits_value(ds.take(i - start)),
            0 <= acc <= limit,
            limit == 9_223_372_036_854_775_808,
        decreases n - i,
    {
        let c = s.get_char(i);
        let ghost k: int = i - start;
        assert(ds[k] == c);
        if !('0' <= c && c <= '9') {
            assert(!all_digits(ds));
            assert(parse_i64_spec(sv) is None);
            return None;
        }
        let d = (c as u32 - '0' as u32) as i128;
        assert(ds.take(k + 1).drop_last() =~= ds.take(k));
        assert(ds.take(k + 1).last() == c);
        let next = acc * 10 + d;
        assert(next == digits_value(ds.take(k + 1)));
        assert(all_digits(ds.take(k + 1))) by {
            assert forall|j: int| 0 <= j < ds.take(k + 1).len() implies '0' <= #[trigger] ds.take(k + 1)[j] <= '9' by {
                if j < k {
                    assert(ds.take(k + 1)[j] == ds.take(k)[j]);
                }
            }
        }
        if next > limit {
            proof {
                if all_digits(ds) {
                    lemma_digits_grow(ds, k + 1);
                    assert(digits_value(ds) > limit);
                }
                assert(parse_i64_spec(sv) is None);
            }
            return None;
        }
        acc = next;
        i = i + 1;
    }
    assert(ds.take(ds.len() as int) =~= ds);
    if neg {
        Some((0 - acc) as i64)
    } else if acc <= 9_223_372_036_854_775_807 {
        Some(acc as i64)
    } else {
        None
    }
}

/// Token signing settings.
#[derive(Debug, Clone)]
pub struct JwtConfig {
    pub secret: String,
    pub expiration_hours: i64,
}

/// The expiry of a token issued at second `now` for `hours` hours can be
/// computed: the span and the instant are both representable.
pub open spec fn expiry_in_range(now: i64, hours: i64) -> bool {
    &&& -MAX_DELTA_SECS <= hours * 3600 <= MAX_DELTA_SECS
    &&& MIN_TIMESTAMP <= now + hours * 3600 <= MAX_TIMESTAMP
}

impl JwtConfig {
    /// The settings from the configured values: the secret, or a default
    /// one; the lifetime in hours as decimal text, or 24 when it is missing
    /// or not a number.
    pub fn from_values(secret: Option<String>, expiration_hours: Option<String>) -> (r: Self)
        ensures
            r.secret@ == match secret {
                Some(s) => s@,
                None => DEFAULT_JWT_SECRET@,
            },
            r.expiration_hours == match expiration_hours {
                Some(t) => match parse_i64_spec(t@) {
                    Some(h) => h,
                    None => DEFAULT_EXPIRATION_HOURS,
                },
                None => DEFAULT_EXPIRATION_HOURS,
            },
    {
        let secret = match secret {
            Some(s) => s,
            None => String::from_str(DEFAULT_JWT_SECRET),
        };
        let hours = match expiration_hours {
            Some(t) => match parse_i64(t.as_str()) {
                Some(h) => h,
                None => DEFAULT_EXPIRATION_HOURS,
            },
            None => DEFAULT_EXPIRATION_HOURS,
        };
        JwtConfig { secret, expiration_hours: hours }
    }

    /// The claims of a token for `user` issued at `now`: the user's identity,
    /// issued at `now`'s second and expiring `expiration_hours` later.
    pub fn claims_for_at(&self, user: &User, now: Timestamp) -> (r: Claims)
        requires
            expiry_in_range(now.secs, self.expiration_hours),
        ensures
            r.sub == user.id,
            r.email@ == user.email@,
            r.username@ == user.username@,
            r.is_admin == user.is_admin,
            r.iat == now.secs,
            r.exp == now.secs + self.expiration_hours * 3600,
    {
        Claims {
            sub: user.id,
            email: user.email.clone(),
            username: user.username.clone(),
            is_admin: user.is_admin,
            exp: now.secs + self.expiration_hours * 3600,
            iat: now.secs,
        }
    }

    /// The claims of a token for `user` issued now, or `None` when the
    /// expiry cannot be represented at the current time.
    pub fn claims_for(&self, user: &User) -> (r: Option<Claims>)
        ensures
            exists|now: Timestamp| {
                &&& (r is Some <==> #[trigger] expiry_in_range(now.secs, self.expiration_hours))
                &&& (r matches Some(c) ==> {
                    &&& c.sub == user.id
                    &&& c.email@ == user.email@
                    &&& c.username@ == user.username@
                    &&& c.is_admin == user.is_admin
                    &&& c.iat == now.secs
                    &&& c.exp == now.secs + self.expiration_hours * 3600
                })
            },
    {
        let now = now_timestamp();
        let h = self.expiration_hours;
        if h < -2_562_047_788_015 || h > 2_562_047_788_015 {
            assert(!expiry_in_range(now.secs, h)) by (nonlinear_arith)
                requires
                    h < -2_562_047_788_015 || h > 2_562_047_788_015,
                    MAX_DELTA_SECS == 9_223_372_036_854_775,
            ;
            return None;
        }
        let span = h * 3600;
        if now.secs < MIN_TIMESTAMP - span || now.secs > MAX_TIMESTAMP - span {
            assert(!expiry_in_range(now.secs, h));
            return None;
        }
        assert(expiry_in_range(now.secs, h));
        Some(self.claims_for_at(user, now))
    }
}

/// The bearer token of a request: from `Authorization: Bearer ...` when that
/// header is present (and then only if it has that form), else from
/// `x-api-key`.
pub open spec fn request_token(authorization: Option<Seq<char>>, x_api_key: Option<Seq<char>>) -> Option<Seq<char>> {
    let from_auth = match authorization {
        Some(a) => strip_prefix_spec(a, "Bearer "@),
        None => None,
    };
    match from_auth {
        Some(t) => Some(t),
        None => x_api_key,
    }
}

/// The token a request carries, from its `Authorization` and `x-api-key`
/// headers.
pub fn extract_token(authorization: Option<&str>, x_api_key: Option<&str>) -> (r: Option<String>)
    ensures
        r.deep_view() == request_token(
            match authorization {
                Some(a) => Some(a@),
                None => None,
            },
            match x_api_key {
                Some(k) => Some(k@),
                None => None,
            },
        ),
{
    let from_auth = match authorization {
        Some(a) => match strip_prefix_str(a, "Bearer ") {
            Some(t) => Some(String::from_str(t)),
            None => None,
        },
        None => None,
    };
    match from_auth {
        Some(t) => Some(t),
        None => match x_api_key {
            Some(k) => Some(String::from_str(k)),
            None => None,
        },
    }
}

/// Whether a token is an API key rather than a JSON Web Token.
pub fn is_api_key_token(token: &str) -> (r: bool)
    ensures
        r == API_KEY_PREFIX@.is_prefix_of(token@),
{
    starts_with_str(token, API_KEY_PREFIX)
}

/// The context for an API-key token, given the stored key found for it:
/// the key's user and id when one was found; nobody when none was, or when
/// the lookup failed.
pub fn api_key_context(lookup: Result<Option<ApiKey>, MantiError>) -> (r: AuthContext)
    ensures
        match lookup {
            Ok(Some(k)) => r == AuthContext::ApiKey { user_id: k.user_id, api_key_id: k.id },
            _ => r is Anonymous,
        },
{
    match lookup {
        Ok(Some(k)) => AuthContext::ApiKey { user_id: k.user_id, api_key_id: k.id },
        _ => AuthContext::Anonymous,
    }
}

/// The context for a JSON Web Token, given the outcome of verifying it: the
/// user when it verified, nobody otherwise.
pub fn jwt_context(verified: Result<Claims, MantiError>) -> (r: AuthContext)
    ensures
        match verified {
            Ok(c) => r == AuthContext::User(c),
            Err(_) => r is Anonymous,
        },
{
    match verified {
        Ok(c) => AuthContext::User(c),
        Err(_) => AuthContext::Anonymous,
    }
}

} // verus!
