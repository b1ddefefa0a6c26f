use clubhouse::token::TokenSlot;

#[test]
fn new_slot_is_empty() {
    let mut slot = TokenSlot::new();
    assert!(slot.is_empty());
    assert_eq!(slot.take(), None);
}

#[test]
fn take_returns_the_value_once() {
    let mut slot = TokenSlot::new();
    slot.store(String::from("code=abc"));
    assert!(!slot.is_empty());
    assert_eq!(slot.take(), Some(String::from("code=abc")));
    assert_eq!(slot.take(), None);
    assert!(slot.is_empty());
}

#[test]
fn store_replaces_what_was_held() {
    let mut slot = TokenSlot::new();
    slot.store(String::from("code=old"));
    slot.store(String::from("code=new"));
    assert_eq!(slot.take(), Some(String::from("code=new")));
}

#[test]
fn offer_fills_an_empty_slot() {
    let mut slot = TokenSlot::new();
    assert!(slot.offer(String::from("access_token=xyz")));
    assert_eq!(slot.take(), Some(String::from("access_token=xyz")));
}

#[test]
fn offer_leaves_a_held_value() {
    let mut slot = TokenSlot::new();
    slot.store(String::from("code=abc"));
    assert!(!slot.offer(String::from("access_token=xyz")));
    assert_eq!(slot.take(), Some(String::from("code=abc")));
    assert_eq!(slot.take(), None);
}

#[test]
fn offer_after_take_is_accepted() {
    let mut slot = TokenSlot::new();
    slot.store(String::from("code=abc"));
    assert_eq!(slot.take(), Some(String::from("code=abc")));
    assert!(slot.offer(String::from("access_token=xyz")));
    assert_eq!(slot.take(), Some(String::from("access_token=xyz")));
}

#[test]
fn clear_discards_what_was_held() {
    let mut slot = TokenSlot::new();
    slot.store(String::from("code=abc"));
    slot.clear();
    assert!(slot.is_empty());
    assert_eq!(slot.take(), None);
}
