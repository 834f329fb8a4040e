use gog::auth::{session_identity, validate_session, validate_session_at};
use gog::errors::SessionValidationError;
use gog::session::{SessionRegistry, TokenSession};

#[test]
fn add_then_get_returns_identity() {
    let mut r = SessionRegistry::new(5);
    let t = r.add_at("alice", 0);
    assert_eq!(r.get_at(t, 0), Some("alice".to_string()));
}

#[test]
fn unknown_token_resolves_to_nothing() {
    let mut r = SessionRegistry::new(5);
    let t = r.add_at("alice", 0);
    let other = t.wrapping_add(1);
    assert_eq!(r.get_at(other, 1), None);
    assert_eq!(SessionRegistry::new(5).get_at(42, 0), None);
}

#[test]
fn removed_token_resolves_to_nothing() {
    let mut r = SessionRegistry::new(5);
    let t = r.add_at("alice", 0);
    r.remove(t);
    assert_eq!(r.get_at(t, 1), None);
    r.remove(t);
    assert_eq!(r.get_at(t, 1), None);
}

#[test]
fn sliding_expiry_renews_on_lookup() {
    let mut r = SessionRegistry::new(5);
    let t = r.add_at("alice", 0);
    assert_eq!(r.get_at(t, 4), Some("alice".to_string()));
    assert_eq!(r.get_at(t, 8), Some("alice".to_string()));
    assert_eq!(r.get_at(t, 13), None);
}

#[test]
fn unrenewed_session_lapses_at_ttl() {
    let mut r = SessionRegistry::new(5);
    let t = r.add_at("alice", 0);
    assert_eq!(r.get_at(t, 5), None);
    assert_eq!(r.get_at(t, 7), None);
}

#[test]
fn sweep_removes_lapsed_session() {
    let mut r = SessionRegistry::new(5);
    let t = r.add_at("alice", 0);
    let u = r.add_at("bob", 3);
    r.reap_at(5);
    // Gone, even when asked with a time at which it would have been live.
    assert_eq!(r.get_at(t, 0), None);
    assert_eq!(r.get_at(u, 7), Some("bob".to_string()));
}

#[test]
fn sweep_at_snapshot_removes_lapsed_then_lookup_fails() {
    let mut r = SessionRegistry::new(5);
    let t = r.add_at("alice", 0);
    r.reap_at(5);
    assert_eq!(r.get_at(t, 0), None);
}

#[test]
fn renewal_survives_concurrent_sweep() {
    // Milliseconds: TTL 5 s, renewal at 4.9 s, sweep snapshot at 5 s.
    let mut r = SessionRegistry::new(5000);
    let t = r.add_at("alice", 0);
    assert_eq!(r.get_at(t, 4900), Some("alice".to_string()));
    r.reap_at(5000);
    assert_eq!(r.get_at(t, 6000), Some("alice".to_string()));

    let mut r = SessionRegistry::new(5000);
    let t = r.add_at("alice", 0);
    r.reap_at(4800);
    assert_eq!(r.get_at(t, 4900), Some("alice".to_string()));
    assert_eq!(r.get_at(t, 6000), Some("alice".to_string()));
}

#[test]
fn many_adds_issue_distinct_tokens() {
    let mut r = SessionRegistry::new(1000);
    let mut seen = std::collections::HashSet::new();
    for i in 0..10000i64 {
        let t = r.add_at("user", i);
        assert!(seen.insert(t));
    }
    assert_eq!(seen.len(), 10000);
}

#[test]
fn ttl_is_kept() {
    assert_eq!(SessionRegistry::new(600_000).ttl(), 600_000);
}

#[test]
fn token_session_round_trip_with_clock() {
    let mut r = SessionRegistry::new(600_000);
    let t = r.add_user("carol");
    let u = r.add_user("dave");
    assert_ne!(t, u);
    assert_eq!(r.get_user(&t), Some("carol".to_string()));
    assert_eq!(r.get_user(&u), Some("dave".to_string()));
    r.remove_user(&t);
    assert_eq!(r.get_user(&t), None);
    r.reap();
    assert_eq!(r.get_user(&u), Some("dave".to_string()));
}

#[test]
fn zero_ttl_sessions_lapse_at_once() {
    let mut r = SessionRegistry::new(0);
    let t = r.add_at("alice", 10);
    assert_eq!(r.get_at(t, 10), None);
}

#[test]
fn session_identity_reports_each_case() {
    let mut r = SessionRegistry::new(5);
    let t = r.add_at("alice", 0);
    assert!(matches!(session_identity(&mut r, None, 1), Err(SessionValidationError::NoCookie)));
    match session_identity(&mut r, Some(Err("bad".to_string())), 1) {
        Err(SessionValidationError::Other { detail }) => assert_eq!(detail, "bad"),
        _ => panic!("expected Other"),
    }
    assert_eq!(session_identity(&mut r, Some(Ok(t)), 1).ok(), Some("alice".to_string()));
    assert!(matches!(
        session_identity(&mut r, Some(Ok(t.wrapping_add(1))), 1),
        Err(SessionValidationError::NoCookie)
    ));
    assert!(matches!(session_identity(&mut r, Some(Ok(t)), 100), Err(SessionValidationError::NoCookie)));
}

#[test]
fn cookie_is_parsed_as_uuid() {
    let mut r = SessionRegistry::new(5);
    let t = r.add_at("alice", 0);
    let cookie = uuid::Uuid::from_u128(t).to_string();
    assert_eq!(validate_session_at(&mut r, Some(&cookie), 2).ok(), Some("alice".to_string()));
    let braced = format!("{{{}}}", cookie);
    assert_eq!(validate_session_at(&mut r, Some(&braced), 3).ok(), Some("alice".to_string()));
    assert!(matches!(
        validate_session_at(&mut r, Some("not-a-uuid"), 3),
        Err(SessionValidationError::Other { .. })
    ));
    assert!(matches!(validate_session_at(&mut r, None, 3), Err(SessionValidationError::NoCookie)));
}

#[test]
fn cookie_checked_against_clock() {
    let mut r = SessionRegistry::new(600_000);
    let t = r.add_user("erin");
    let cookie = uuid::Uuid::from_u128(t).to_string();
    assert_eq!(validate_session(&mut r, Some(&cookie)).ok(), Some("erin".to_string()));
    let other = uuid::Uuid::from_u128(t.wrapping_add(1)).to_string();
    assert!(matches!(validate_session(&mut r, Some(&other)), Err(SessionValidationError::NoCookie)));
}
