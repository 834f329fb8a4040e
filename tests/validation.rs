use gog::data::{
    CommentCreationData, PostCreationData, ProfileFields, UserCreationData, UserUpdateData,
    UserUpdateDataExt,
};
use gog::validation::{validate_user_login, validate_user_password, FieldFailure};

fn summary(v: &[FieldFailure]) -> Vec<(String, Option<String>, Option<i32>, Option<i32>)> {
    v.iter()
        .map(|f| (f.field.clone(), f.error.code.clone(), f.error.params.min, f.error.params.max))
        .collect()
}

#[test]
fn login_rule() {
    assert!(validate_user_login("alice_01").is_ok());
    assert!(validate_user_login("").is_ok());
    let e = validate_user_login("al ice").unwrap_err();
    assert_eq!(e.code.as_deref(), Some("2137"));
    assert_eq!(e.message.as_deref(), Some("username contains whitespace or non-ascii characters"));
    assert!(validate_user_login("tab\there").is_err());
    assert!(validate_user_login("vt\u{0B}").is_err());
    assert!(validate_user_login("zażółć").is_err());
}

#[test]
fn password_rule() {
    assert!(validate_user_password("p4ss w0rd!").is_ok());
    let e = validate_user_password("hasło").unwrap_err();
    assert_eq!(e.code.as_deref(), Some("2138"));
    assert_eq!(e.message.as_deref(), Some("login contains non-ascii characters"));
}

#[test]
fn post_content_length() {
    assert!(PostCreationData { content: "hi".to_string() }.validate().is_ok());
    assert!(PostCreationData { content: "x".repeat(300) }.validate().is_ok());
    // Characters are counted, not bytes.
    assert!(PostCreationData { content: "é".repeat(300) }.validate().is_ok());
    let v = PostCreationData { content: "x".repeat(301) }.validate().unwrap_err();
    assert_eq!(summary(&v), vec![("content".to_string(), Some("length".to_string()), Some(1), Some(300))]);
    assert_eq!(v[0].error.message.as_deref(), Some("post content of disallowed size"));
    assert!(PostCreationData { content: String::new() }.validate().is_err());
}

#[test]
fn comment_content_length() {
    let ok = CommentCreationData { content: "nice".to_string(), post_id: 7 };
    assert!(ok.validate().is_ok());
    let v = CommentCreationData { content: String::new(), post_id: 7 }.validate().unwrap_err();
    assert_eq!(v[0].error.message.as_deref(), Some("comment content of disallowed size"));
}

#[test]
fn user_creation_rules() {
    let ok = UserCreationData { login: "bob".to_string(), password: "secret".to_string() };
    assert!(ok.validate().is_ok());
    let v = UserCreationData { login: String::new(), password: "pässword".to_string() }.validate().unwrap_err();
    assert_eq!(
        summary(&v),
        vec![
            ("login".to_string(), Some("length".to_string()), Some(1), None),
            ("password".to_string(), Some("2138".to_string()), None, None),
        ]
    );
    let v = UserCreationData { login: "b o b".to_string(), password: String::new() }.validate().unwrap_err();
    assert_eq!(
        summary(&v),
        vec![
            ("login".to_string(), Some("2137".to_string()), None, None),
            ("password".to_string(), Some("length".to_string()), Some(1), None),
        ]
    );
}

#[test]
fn user_update_rules() {
    let none = UserUpdateData { description: None, gender: None };
    assert!(none.validate().is_ok());
    let v = UserUpdateData { description: Some("d".repeat(251)), gender: Some("xy".to_string()) }
        .validate()
        .unwrap_err();
    assert_eq!(
        summary(&v),
        vec![
            ("description".to_string(), Some("length".to_string()), None, Some(250)),
            ("gender".to_string(), Some("length".to_string()), Some(3), Some(15)),
        ]
    );
    assert_eq!(v[1].error.message.as_deref(), Some("gender length was inproper"));
    let ok = UserUpdateData { description: Some("d".repeat(250)), gender: Some("x".repeat(15)) };
    assert!(ok.validate().is_ok());
}

#[test]
fn update_model_replaces_given_fields() {
    let mut m = ProfileFields { description: Some("old".to_string()), gender: Some("g".to_string()) };
    UserUpdateData { description: Some("new".to_string()), gender: None }.update_model(&mut m);
    assert_eq!(m.description.as_deref(), Some("new"));
    assert_eq!(m.gender.as_deref(), Some("g"));
    UserUpdateData { description: None, gender: Some("h".to_string()) }.update_model(&mut m);
    assert_eq!(m.description.as_deref(), Some("new"));
    assert_eq!(m.gender.as_deref(), Some("h"));
}
