//! Resolving the session cookie of a request to the login it belongs to.
use crate::errors::SessionValidationError;
use crate::session::{current_millis, lookup, touched, SessionRegistry, Table};
use vstd::prelude::*;

verus! {

/// The 128-bit value that uuid's parser reads from `s`, if `s` is a UUID in
/// one of the textual forms it accepts.
pub uninterp spec fn parsed_uuid(s: Seq<char>) -> Option<u128>;

/// Relies on uuid::Uuid::parse_str (read back with Uuid::as_u128): the value
/// that the text denotes, or the parser's description of why it denotes none.
#[verifier::external_body]
fn parse_token(s: &str) -> (r: Result<u128, String>)
    ensures
        match r {
            Ok(t) => parsed_uuid(s@) == Some(t),
            Err(_) => parsed_uuid(s@) is None,
        },
{
    uuid::Uuid::parse_str(s).map(|u| u.as_u128()).map_err(|e| e.to_string())
}

/// The identity behind a cookie that has already been read and parsed:
/// `None` when the request carried no cookie, `Err` with the parser's
/// description when it named no token. A known, live token is renewed and its
/// identity returned; an unknown or lapsed one counts as a missing cookie.
pub fn session_identity(
    registry: &mut SessionRegistry,
    parsed: Option<Result<u128, String>>,
    now: i64,
) -> (r: Result<String, SessionValidationError>)
    ensures
        final(registry).lifetime() == old(registry).lifetime(),
        match parsed {
            None => r matches Err(SessionValidationError::NoCookie) && final(registry)@ == old(registry)@,
            Some(Err(d)) => r matches Err(SessionValidationError::Other { detail }) && detail@ == d@
                && final(registry)@ == old(registry)@,
            Some(Ok(t)) => final(registry)@ == touched(old(registry)@, t, now as int, old(registry).lifetime())
                && match lookup(old(registry)@, t, now as int) {
                    Some(u) => r matches Ok(s) && s@ == u,
                    None => r matches Err(SessionValidationError::NoCookie),
                },
        },
{
    match parsed {
        None => Err(SessionValidationError::NoCookie),
        Some(Err(detail)) => Err(SessionValidationError::Other { detail }),
        Some(Ok(t)) => match registry.get_at(t, now) {
            Some(login) => Ok(login),
            None => Err(SessionValidationError::NoCookie),
        },
    }
}

/// What checking the session cookie `cookie` at `now` does: the table goes
/// from `before` to `after` and `r` is reported.
pub open spec fn session_checked(
    before: Table,
    after: Table,
    ttl: int,
    cookie: Option<Seq<char>>,
    now: int,
    r: Result<String, SessionValidationError>,
) -> bool {
    match cookie {
        None => r matches Err(SessionValidationError::NoCookie) && after == before,
        Some(c) => match parsed_uuid(c) {
            None => r matches Err(SessionValidationError::Other { .. }) && after == before,
            Some(t) => after == touched(before, t, now, ttl) && match lookup(before, t, now) {
                Some(u) => r matches Ok(s) && s@ == u,
                None => r matches Err(SessionValidationError::NoCookie),
            },
        },
    }
}

pub open spec fn cookie_view(cookie: Option<&str>) -> Option<Seq<char>> {
    match cookie {
        Some(c) => Some(c@),
        None => None,
    }
}

/// The identity behind the session cookie `cookie` at time `now`.
pub fn validate_session_at(registry: &mut SessionRegistry, cookie: Option<&str>, now: i64) -> (r: Result<
    String,
    SessionValidationError,
>)
    ensures
        final(registry).lifetime() == old(registry).lifetime(),
        session_checked(old(registry)@, final(registry)@, old(registry).lifetime(), cookie_view(cookie), now as int, r),
{
    let parsed = match cookie {
        None => None,
        Some(c) => Some(parse_token(c)),
    };
    session_identity(registry, parsed, now)
}

/// The identity behind the session cookie `cookie`, checked at the time the
/// clock reports.
pub fn validate_session(registry: &mut SessionRegistry, cookie: Option<&str>) -> (r: Result<
    String,
    SessionValidationError,
>)
    ensures
        final(registry).lifetime() == old(registry).lifetime(),
        exists|now: int|
            #[trigger] session_checked(old(registry)@, final(registry)@, old(registry).lifetime(), cookie_view(cookie), now, r),
{
    let now = current_millis();
    let r = validate_session_at(registry, cookie, now);
    assert(session_checked(old(registry)@, registry@, old(registry).lifetime(), cookie_view(cookie), now as int, r));
    r
}

} // verus!
