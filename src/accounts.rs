//! Logging in with a password and preparing the stored record of a new
//! account. Passwords are hashed and checked with Argon2.
use crate::errors::ServiceError;
use crate::session::{added, current_millis, SessionRegistry, Table};
use argon2::password_hash::{PasswordHash, PasswordHasher, PasswordVerifier, Salt, SaltString};
use vstd::prelude::*;

verus! {

/// What Argon2 (default parameters) says of `password` against the stored
/// PHC string `hash`: `None` when `hash` cannot be read, else whether the
/// password matches.
pub uninterp spec fn argon2_accepts(password: Seq<char>, hash: Seq<char>) -> Option<bool>;

/// The PHC string that Argon2 (default parameters) makes of `password` with
/// the base64 salt `salt`, or `None` when the salt cannot be used.
pub uninterp spec fn argon2_hash(password: Seq<char>, salt: Seq<char>) -> Option<Seq<char>>;

/// Relies on password_hash::PasswordHash::new, to read the stored hash, and
/// on argon2's PasswordVerifier::verify_password, to check the password
/// against it.
#[verifier::external_body]
fn check_password(password: &str, hash: &str) -> (r: Option<bool>)
    ensures
        r == argon2_accepts(password@, hash@),
{
    match PasswordHash::new(hash) {
        Err(_) => None,
        Ok(parsed) => Some(argon2::Argon2::default().verify_password(password.as_bytes(), &parsed).is_ok()),
    }
}

/// Relies on password_hash::SaltString::generate with the operating system's
/// random source: a fresh random salt, in base64. Nothing is promised about it.
#[verifier::external_body]
fn fresh_salt() -> (salt: String) {
    SaltString::generate(&mut argon2::password_hash::rand_core::OsRng).as_str().to_owned()
}

/// Relies on password_hash::Salt::from_b64, to read the salt, and on argon2's
/// PasswordHasher::hash_password, to hash the password with it into a PHC
/// string.
#[verifier::external_body]
fn hash_with_salt(password: &str, salt: &str) -> (r: Option<String>)
    ensures
        match r {
            Some(h) => argon2_hash(password@, salt@) == Some(h@),
            None => argon2_hash(password@, salt@) is None,
        },
{
    match Salt::from_b64(salt) {
        Err(_) => None,
        Ok(s) => match argon2::Argon2::default().hash_password(password.as_bytes(), s) {
            Err(_) => None,
            Ok(h) => Some(h.to_string()),
        },
    }
}

/// A stored account, as far as logging in needs it.
pub struct LoginRecord {
    pub login: String,
    pub hash: String,
}

/// What a login attempt does. `account` is the stored login and hash found
/// for the name given (if any), `verdict` what Argon2 said of the password.
/// An unreadable stored hash is a fault of the stored data.
pub open spec fn login_done(
    before: Table,
    after: Table,
    ttl: int,
    account: Option<(Seq<char>, Seq<char>)>,
    verdict: Option<bool>,
    now: int,
    r: Result<u128, ServiceError>,
) -> bool {
    match account {
        None => r matches Err(ServiceError::UserNotFound) && after == before,
        Some((login, _)) => match verdict {
            Some(true) => r matches Ok(t) && !before.contains_key(t) && after == added(before, t, login, now, ttl),
            Some(false) => r matches Err(ServiceError::WrongPassword) && after == before,
            None => r matches Err(ServiceError::DatabaseError { .. }) && after == before,
        },
    }
}

pub open spec fn record_view(account: Option<&LoginRecord>) -> Option<(Seq<char>, Seq<char>)> {
    match account {
        Some(a) => Some((a.login@, a.hash@)),
        None => None,
    }
}

/// Finishes a login once the password has been checked: a session is issued
/// to the stored login only when the password matched.
pub fn session_for_verdict(
    registry: &mut SessionRegistry,
    account: Option<&LoginRecord>,
    verdict: Option<bool>,
    now: i64,
) -> (r: Result<u128, ServiceError>)
    ensures
        final(registry).lifetime() == old(registry).lifetime(),
        login_done(old(registry)@, final(registry)@, old(registry).lifetime(), record_view(account), verdict, now as int, r),
{
    match account {
        None => Err(ServiceError::UserNotFound),
        Some(a) => match verdict {
            Some(true) => Ok(registry.add_at(a.login.as_str(), now)),
            Some(false) => Err(ServiceError::WrongPassword),
            None => Err(ServiceError::DatabaseError { detail: "malformed password hash".to_owned() }),
        },
    }
}

pub open spec fn verdict_for(account: Option<(Seq<char>, Seq<char>)>, password: Seq<char>) -> Option<bool> {
    match account {
        Some((_, hash)) => argon2_accepts(password, hash),
        None => None,
    }
}

/// Logs in at time `now` with `password`, against the stored `account`.
pub fn login_at(registry: &mut SessionRegistry, account: Option<&LoginRecord>, password: &str, now: i64) -> (r:
    Result<u128, ServiceError>)
    ensures
        final(registry).lifetime() == old(registry).lifetime(),
        login_done(
            old(registry)@,
            final(registry)@,
            old(registry).lifetime(),
            record_view(account),
            verdict_for(record_view(account), password@),
            now as int,
            r,
        ),
{
    let verdict = match account {
        Some(a) => check_password(password, a.hash.as_str()),
        None => None,
    };
    session_for_verdict(registry, account, verdict, now)
}

/// Logs in with `password` against the stored `account`, at the time the
/// clock reports.
pub fn login(registry: &mut SessionRegistry, account: Option<&LoginRecord>, password: &str) -> (r: Result<
    u128,
    ServiceError,
>)
    ensures
        final(registry).lifetime() == old(registry).lifetime(),
        exists|now: int|
            #[trigger] login_done(
                old(registry)@,
                final(registry)@,
                old(registry).lifetime(),
                record_view(account),
                verdict_for(record_view(account), password@),
                now,
                r,
            ),
{
    let now = current_millis();
    let r = login_at(registry, account, password, now);
    assert(login_done(
        old(registry)@,
        registry@,
        old(registry).lifetime(),
        record_view(account),
        verdict_for(record_view(account), password@),
        now as int,
        r,
    ));
    r
}

/// The stored form of a new account.
pub struct AccountRecord {
    pub login: String,
    pub salt: String,
    pub hash: String,
}

/// Why a new account was not prepared.
pub enum AccountError {
    AlreadyExists,
    /// Hashing the password failed.
    HashFailed,
}

impl AccountError {
    /// The response sent back for this error.
    pub fn error_response(&self) -> (r: crate::errors::ErrorResponse)
        ensures
            match *self {
                AccountError::AlreadyExists => r.status == 400 && r.reason@ == "user already exists"@,
                AccountError::HashFailed => r.status == 500 && r.reason@ == "could not create user"@,
            },
    {
        match self {
            AccountError::AlreadyExists => crate::errors::ErrorResponse {
                status: 400,
                reason: "user already exists".to_owned(),
            },
            AccountError::HashFailed => crate::errors::ErrorResponse {
                status: 500,
                reason: "could not create user".to_owned(),
            },
        }
    }
}

/// The record of a new account whose password is hashed with `salt`;
/// refused when the login is taken.
pub fn account_with_salt(login: &str, password: &str, taken: bool, salt: String) -> (r: Result<
    AccountRecord,
    AccountError,
>)
    ensures
        taken ==> r matches Err(AccountError::AlreadyExists),
        !taken ==> match argon2_hash(password@, salt@) {
            Some(h) => r matches Ok(a) && a.login@ == login@ && a.salt@ == salt@ && a.hash@ == h,
            None => r matches Err(AccountError::HashFailed),
        },
{
    if taken {
        return Err(AccountError::AlreadyExists);
    }
    match hash_with_salt(password, salt.as_str()) {
        Some(hash) => Ok(AccountRecord { login: login.to_owned(), salt, hash }),
        None => Err(AccountError::HashFailed),
    }
}

/// The record of a new account, with a fresh random salt; refused when the
/// login is taken.
pub fn new_account(login: &str, password: &str, taken: bool) -> (r: Result<AccountRecord, AccountError>)
    ensures
        taken ==> r matches Err(AccountError::AlreadyExists),
        !taken ==> (r matches Ok(a) ==> a.login@ == login@ && argon2_hash(password@, a.salt@) == Some(a.hash@)),
        !taken ==> (r matches Err(e) ==> e is HashFailed),
{
    if taken {
        return Err(AccountError::AlreadyExists);
    }
    let salt = fresh_salt();
    account_with_salt(login, password, taken, salt)
}

} // verus!
