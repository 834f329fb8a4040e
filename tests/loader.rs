use gog::loader::{after_load, reached_bottom, refresh_request, scroll_request, LoadStep, LOAD_MORE_AMOUNT};

#[test]
fn bottom_threshold() {
    assert!(reached_bottom(1000, 900));
    assert!(reached_bottom(1000, 950));
    assert!(!reached_bottom(1000, 899));
    assert!(reached_bottom(i32::MIN, i32::MIN));
}

#[test]
fn scroll_asks_for_more_only_when_idle() {
    assert_eq!(scroll_request(true, false, None, 5, LOAD_MORE_AMOUNT), Some(15));
    assert_eq!(scroll_request(false, false, None, 5, LOAD_MORE_AMOUNT), None);
    assert_eq!(scroll_request(true, true, None, 5, LOAD_MORE_AMOUNT), None);
    assert_eq!(scroll_request(true, false, Some(15), 5, LOAD_MORE_AMOUNT), None);
}

#[test]
fn batch_handling() {
    assert!(matches!(after_load(0, 0, Some(5), 10), LoadStep::Keep));
    assert!(matches!(after_load(5, 15, Some(15), 10), LoadStep::Replace));
    assert!(matches!(after_load(15, 15, Some(25), 10), LoadStep::CoolDown { to_load: 15 }));
    assert!(matches!(after_load(15, 10, None, 10), LoadStep::CoolDown { to_load: 0 }));
}

#[test]
fn refresh_asks_for_one_more() {
    assert_eq!(refresh_request(0), 1);
    assert_eq!(refresh_request(12), 13);
}
