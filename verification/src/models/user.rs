//! Users, and their passwords hashed with Argon2.
use vstd::prelude::*;
use crate::clock::{Timestamp, now_timestamp};
use crate::error::MantiError;
use crate::models::money::Money;
use argon2::password_hash::rand_core::OsRng;
use argon2::password_hash::{PasswordHash, PasswordHasher, PasswordVerifier, SaltString};
use argon2::Argon2;

verus! {

/// Whether `hash` is a PHC string that `argon2::password_hash::PasswordHash::new` accepts.
pub uninterp spec fn phc_hash_parses(hash: Seq<char>) -> bool;

/// Whether Argon2, run with the parameters and salt recorded in the PHC
/// string `hash`, reproduces the hash for `password`.
pub uninterp spec fn argon2_matches(password: Seq<char>, hash: Seq<char>) -> bool;

/// A registered user.
#[derive(Debug)]
pub struct User {
    pub id: u128,
    pub email: String,
    pub username: String,
    pub password_hash: String,
    pub is_active: bool,
    pub is_admin: bool,
    pub created_at: Timestamp,
    pub updated_at: Timestamp,
    pub last_login: Option<Timestamp>,
    pub rate_limit_rpm: Option<i32>,
    pub monthly_quota: Option<Money>,
    pub current_month_usage: Money,
    pub user_groups: Vec<String>,
}

/// The data needed to store a new user.
#[derive(Debug, Clone)]
pub struct CreateUser {
    pub email: String,
    pub username: String,
    pub password_hash: String,
    pub is_active: bool,
    pub is_admin: bool,
    pub user_groups: Vec<String>,
}

/// A registration request.
#[derive(Debug, Clone)]
pub struct CreateUserRequest {
    pub email: String,
    pub username: String,
    pub password: String,
}

/// A login request.
#[derive(Debug, Clone)]
pub struct LoginRequest {
    pub email: String,
    pub password: String,
}

/// The public part of a user.
#[derive(Debug, Clone)]
pub struct UserInfo {
    pub id: u128,
    pub email: String,
    pub username: String,
    pub is_admin: bool,
    pub created_at: Timestamp,
}

/// The longest password Argon2 hashes, in bytes.
pub const MAX_PASSWORD_BYTES: u64 = 0xFFFF_FFFF;

/// Hashes `password` with `Argon2::default()` and a salt drawn from
/// `OsRng`, and prints the PHC string; on failure, the error's text.
/// The salt is random, so the hash is not named; what is stated holds of
/// every outcome: the PHC string parses and verifies against the password.
/// With the default parameters and a generated 16-byte salt, hashing fails
/// only for a password over `MAX_PASSWORD_BYTES` bytes.
#[verifier::external_body]
fn argon2_hash(password: &str) -> (r: Result<String, String>)
    ensures
        r matches Ok(h) ==> phc_hash_parses(h@) && argon2_matches(password@, h@),
        vstd::utf8::encode_utf8(password@).len() <= MAX_PASSWORD_BYTES ==> r is Ok,
{
    let salt = SaltString::generate(&mut OsRng);
    match Argon2::default().hash_password(password.as_bytes(), &salt) {
        Ok(hash) => Ok(hash.to_string()),
        Err(e) => Err(e.to_string()),
    }
}

/// Parses `hash` with `PasswordHash::new` (the error's text when it does not
/// parse) and checks `password` against it with `Argon2::default()`.
#[verifier::external_body]
fn argon2_verify(password: &str, hash: &str) -> (r: Result<bool, String>)
    ensures
        r is Ok <==> phc_hash_parses(hash@),
        r matches Ok(b) ==> b == argon2_matches(password@, hash@),
{
    match PasswordHash::new(hash) {
        Ok(parsed) => Ok(Argon2::default().verify_password(password.as_bytes(), &parsed).is_ok()),
        Err(e) => Err(e.to_string()),
    }
}

/// The outcome of checking `password` against the stored `hash`.
pub open spec fn password_check(password: Seq<char>, hash: Seq<char>) -> Result<bool, ()> {
    if phc_hash_parses(hash) {
        Ok(argon2_matches(password, hash))
    } else {
        Err(())
    }
}

/// An authentication error carrying `prefix` followed by `detail`.
fn auth_error(prefix: &str, detail: String) -> (r: MantiError)
    ensures
        r matches MantiError::Auth(m) && m@ == prefix@ + detail@,
{
    let mut m = String::from_str(prefix);
    m.append(detail.as_str());
    MantiError::Auth(m)
}

/// Hashes a password with Argon2 and a random salt. On success the PHC
/// string parses and verifies against the password; a failure of the
/// hasher, which happens only for a password over `MAX_PASSWORD_BYTES`
/// bytes, is an authentication error.
pub fn hash_password(password: &str) -> (r: Result<String, MantiError>)
    ensures
        vstd::utf8::encode_utf8(password@).len() <= MAX_PASSWORD_BYTES ==> r is Ok,
        r matches Ok(h) ==> password_check(password@, h@) == Ok::<bool, ()>(true),
        r matches Err(e) ==> e is Auth,
{
    match argon2_hash(password) {
        Ok(h) => Ok(h),
        Err(e) => Err(auth_error("Failed to hash password: ", e)),
    }
}

/// Checks a password against a stored hash: `Ok(true)` when it matches,
/// `Ok(false)` when it does not, and an authentication error when the hash
/// is not a valid PHC string.
pub fn verify_password(password: &str, hash: &str) -> (r: Result<bool, MantiError>)
    ensures
        r is Ok <==> password_check(password@, hash@) is Ok,
        r matches Ok(b) ==> password_check(password@, hash@) == Ok::<bool, ()>(b),
        r matches Err(e) ==> e is Auth,
{
    match argon2_verify(password, hash) {
        Ok(b) => Ok(b),
        Err(e) => Err(auth_error("Invalid password hash: ", e)),
    }
}

impl CreateUser {
    /// A new active user with the password hashed, in no user group; it
    /// fails only when the password is too long to hash.
    pub fn new(email: String, username: String, password: &str, is_admin: bool) -> (r: Result<Self, MantiError>)
        ensures
            vstd::utf8::encode_utf8(password@).len() <= MAX_PASSWORD_BYTES ==> r is Ok,
            r matches Ok(u) ==> {
                &&& u.email@ == email@
                &&& u.username@ == username@
                &&& password_check(password@, u.password_hash@) == Ok::<bool, ()>(true)
                &&& u.is_active
                &&& u.is_admin == is_admin
                &&& u.user_groups@.len() == 0
            },
            r matches Err(e) ==> e is Auth,
    {
        let password_hash = hash_password(password)?;
        Ok(CreateUser { email, username, password_hash, is_active: true, is_admin, user_groups: Vec::new() })
    }
}

/// Calls `uuid::Uuid::new_v4()` and returns its 128-bit value. The id is
/// random, so nothing is stated of it.
#[verifier::external_body]
fn new_uuid() -> (r: u128) {
    uuid::Uuid::new_v4().as_u128()
}

impl User {
    /// A new active, non-admin user with a fresh id, the password hashed,
    /// created now, with no limits, no usage and no groups; it fails only
    /// when the password is too long to hash.
    pub fn new(email: String, username: String, password: &str) -> (r: Result<Self, MantiError>)
        ensures
            vstd::utf8::encode_utf8(password@).len() <= MAX_PASSWORD_BYTES ==> r is Ok,
            r matches Ok(u) ==> {
                &&& u.email@ == email@
                &&& u.username@ == username@
                &&& password_check(password@, u.password_hash@) == Ok::<bool, ()>(true)
                &&& u.is_active
                &&& !u.is_admin
                &&& u.last_login is None
                &&& u.rate_limit_rpm is None
                &&& u.monthly_quota is None
                &&& u.current_month_usage@.mantissa == 0
                &&& u.user_groups@.len() == 0
            },
            r matches Err(e) ==> e is Auth,
    {
        let password_hash = hash_password(password)?;
        let now = now_timestamp();
        Ok(User {
            id: new_uuid(),
            email,
            username,
            password_hash,
            is_active: true,
            is_admin: false,
            created_at: now,
            updated_at: now,
            last_login: None,
            rate_limit_rpm: None,
            monthly_quota: None,
            current_month_usage: Money::zero(),
            user_groups: Vec::new(),
        })
    }

    /// Whether `password` is this user's password; a stored hash that cannot
    /// be read matches nothing.
    pub fn verify_password(&self, password: &str) -> (r: bool)
        ensures
            r == (password_check(password@, self.password_hash@) == Ok::<bool, ()>(true)),
    {
        match verify_password(password, self.password_hash.as_str()) {
            Ok(b) => b,
            Err(_) => false,
        }
    }

    /// Records a login at `now`.
    pub fn update_last_login_at(&mut self, now: Timestamp)
        ensures
            final(self).last_login == Some(now),
            final(self).updated_at == now,
            final(self).id == old(self).id,
            final(self).email@ == old(self).email@,
            final(self).password_hash@ == old(self).password_hash@,
            final(self).created_at == old(self).created_at,
    {
        self.last_login = Some(now);
        self.updated_at = now;
    }

    /// Records a login at the current time.
    pub fn update_last_login(&mut self)
        ensures
            final(self).last_login == Some(final(self).updated_at),
            final(self).id == old(self).id,
            final(self).email@ == old(self).email@,
            final(self).password_hash@ == old(self).password_hash@,
            final(self).created_at == old(self).created_at,
    {
        let now = now_timestamp();
        self.update_last_login_at(now);
    }
}

impl UserInfo {
    /// The public part of `user`.
    pub fn from_user(user: User) -> (r: UserInfo)
        ensures
            r.id == user.id,
            r.email@ == user.email@,
            r.username@ == user.username@,
            r.is_admin == user.is_admin,
            r.created_at == user.created_at,
    {
        UserInfo {
            id: user.id,
            email: user.email,
            username: user.username,
            is_admin: user.is_admin,
            created_at: user.created_at,
        }
    }
}

} // verus!

verus! {

/// What a successful login answers: the session token and the user.
#[derive(Debug)]
pub struct LoginResponse {
    pub token: String,
    pub user: UserInfo,
}

} // verus!

verus! {

/// A request to set the groups a user belongs to.
#[derive(Debug, Clone)]
pub struct UpdateUserGroupsRequest {
    pub user_groups: Vec<String>,
}

} // verus!
