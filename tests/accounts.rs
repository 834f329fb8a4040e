use gog::accounts::{account_with_salt, login_at, new_account, session_for_verdict, AccountError, LoginRecord};
use gog::errors::ServiceError;
use gog::session::SessionRegistry;

#[test]
fn login_with_correct_password_issues_session() {
    let acc = new_account("bob", "hunter2", false).ok().expect("account");
    assert_eq!(acc.login, "bob");
    assert!(acc.hash.starts_with("$argon2"));
    let record = LoginRecord { login: acc.login.clone(), hash: acc.hash.clone() };
    let mut r = SessionRegistry::new(1000);
    let t = login_at(&mut r, Some(&record), "hunter2", 0).ok().expect("token");
    assert_eq!(r.get_at(t, 1), Some("bob".to_string()));
    assert!(matches!(login_at(&mut r, Some(&record), "hunter3", 0), Err(ServiceError::WrongPassword)));
}

#[test]
fn login_refusals() {
    let mut r = SessionRegistry::new(1000);
    assert!(matches!(login_at(&mut r, None, "x", 0), Err(ServiceError::UserNotFound)));
    let broken = LoginRecord { login: "eve".to_string(), hash: "not a phc string".to_string() };
    assert!(matches!(login_at(&mut r, Some(&broken), "x", 0), Err(ServiceError::DatabaseError { .. })));
}

#[test]
fn verdicts_decide_sessions() {
    let mut r = SessionRegistry::new(1000);
    let rec = LoginRecord { login: "amy".to_string(), hash: String::new() };
    let t = session_for_verdict(&mut r, Some(&rec), Some(true), 5).ok().expect("token");
    assert_eq!(r.get_at(t, 6), Some("amy".to_string()));
    assert!(matches!(session_for_verdict(&mut r, Some(&rec), Some(false), 5), Err(ServiceError::WrongPassword)));
    assert!(matches!(session_for_verdict(&mut r, None, Some(true), 5), Err(ServiceError::UserNotFound)));
}

#[test]
fn account_hash_depends_on_salt_only() {
    let a = account_with_salt("bob", "pw", false, "c29tZXNhbHQ".to_string()).ok().expect("a");
    let b = account_with_salt("bob", "pw", false, "c29tZXNhbHQ".to_string()).ok().expect("b");
    assert_eq!(a.hash, b.hash);
    assert_eq!(a.salt, "c29tZXNhbHQ");
    assert_ne!(a.hash, "pw");
    assert!(matches!(account_with_salt("bob", "pw", true, "c29tZXNhbHQ".to_string()), Err(AccountError::AlreadyExists)));
    assert!(matches!(account_with_salt("bob", "pw", false, "!".to_string()), Err(AccountError::HashFailed)));
}

#[test]
fn taken_login_is_refused() {
    assert!(matches!(new_account("bob", "pw", true), Err(AccountError::AlreadyExists)));
    let e = AccountError::AlreadyExists.error_response();
    assert_eq!((e.status, e.reason.as_str()), (400, "user already exists"));
    let e = AccountError::HashFailed.error_response();
    assert_eq!((e.status, e.reason.as_str()), (500, "could not create user"));
}
