use gog::queries::{comments_lookup, profile_lookup, CommentsLookup, ProfileLookup};

#[test]
fn profile_lookup_prefers_login() {
    assert!(matches!(profile_lookup(Some(3), None), ProfileLookup::ById(3)));
    assert!(matches!(profile_lookup(Some(3), Some("amy".to_string())), ProfileLookup::ByLogin(ref l) if l == "amy"));
    assert!(matches!(profile_lookup(None, Some("bo".to_string())), ProfileLookup::ByLogin(ref l) if l == "bo"));
    assert!(matches!(profile_lookup(None, None), ProfileLookup::Nothing));
}

#[test]
fn comments_lookup_needs_exactly_one_id() {
    assert!(matches!(comments_lookup(None, Some(9), None), CommentsLookup::One(9)));
    assert!(matches!(comments_lookup(Some(4), None, Some(10)), CommentsLookup::OfPost { post: 4, limit: Some(10) }));
    assert!(matches!(comments_lookup(Some(4), Some(9), None), CommentsLookup::Malformed));
    assert!(matches!(comments_lookup(None, None, None), CommentsLookup::Malformed));
}
