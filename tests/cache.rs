use gog::cache::{CacheError, ResourceCache};

#[test]
fn stored_resource_is_returned() {
    let mut c = ResourceCache::new();
    assert!(c.store("a.png", vec![1, 2, 3]).is_ok());
    assert_eq!(c.get("a.png"), Some(vec![1, 2, 3]));
    assert_eq!(c.get_ref("a.png"), Some(&vec![1, 2, 3]));
    assert_eq!(c.get("b.png"), None);
    assert!(c.contains("a.png"));
}

#[test]
fn storing_twice_is_refused() {
    let mut c = ResourceCache::new();
    assert!(c.store("a.png", vec![1]).is_ok());
    match c.store("a.png", vec![2]) {
        Err(CacheError::AlreadyPresent { path }) => assert_eq!(path, "a.png"),
        _ => panic!("expected AlreadyPresent"),
    }
    assert_eq!(c.get("a.png"), Some(vec![1]));
    assert!(matches!(c.ensure_absent("a.png"), Err(CacheError::AlreadyPresent { .. })));
    assert!(c.ensure_absent("b.png").is_ok());
}

#[test]
fn dropping_and_clearing() {
    let mut c = ResourceCache::new();
    c.store("a", vec![1]).ok();
    c.store("b", vec![2]).ok();
    c.store("c", vec![3]).ok();
    assert_eq!(c.drop_from_cache("b"), Some(vec![2]));
    assert_eq!(c.drop_from_cache("b"), None);
    assert_eq!(c.get("a"), Some(vec![1]));
    assert_eq!(c.get("c"), Some(vec![3]));
    c.clear_cache();
    assert_eq!(c.get("a"), None);
    assert_eq!(c.get("c"), None);
}

#[test]
fn settling_a_load() {
    let mut c = ResourceCache::new();
    c.store("a", vec![7]).ok();
    assert_eq!(c.settle_load("a", Ok(())).ok(), Some(vec![7]));
    let again = c.store("a", vec![8]);
    assert_eq!(c.settle_load("a", again).ok(), Some(vec![7]));
    let io = std::io::Error::new(std::io::ErrorKind::NotFound, "gone");
    assert!(matches!(c.settle_load("z", Err(CacheError::IoError { source: io })), Err(CacheError::IoError { .. })));
}

#[test]
fn cache_error_messages() {
    let e = CacheError::AlreadyPresent { path: "x/y".to_string() };
    assert_eq!(e.message(), "File at specified path `x/y` is already present in the cache");
    let io = std::io::Error::new(std::io::ErrorKind::Other, "boom");
    assert_eq!(CacheError::IoError { source: io }.message(), "Io error");
}
