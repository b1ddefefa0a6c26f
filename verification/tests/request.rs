use clubhouse::request::{has_code, query_string, relay_payload};

#[test]
fn query_string_follows_the_first_question_mark() {
    assert_eq!(query_string("/callback?code=abc"), Some(String::from("code=abc")));
    assert_eq!(query_string("/?code=abc&state=1"), Some(String::from("code=abc&state=1")));
    assert_eq!(query_string("/a?b?c"), Some(String::from("b?c")));
}

#[test]
fn query_string_of_a_target_without_question_mark_is_none() {
    assert_eq!(query_string("/callback"), None);
    assert_eq!(query_string("/"), None);
    assert_eq!(query_string(""), None);
}

#[test]
fn query_string_may_be_empty() {
    assert_eq!(query_string("/callback?"), Some(String::new()));
    assert_eq!(query_string("?"), Some(String::new()));
}

#[test]
fn query_string_keeps_characters_outside_ascii() {
    assert_eq!(
        query_string("/caf\u{e9}?n\u{e4}me=\u{26f3}"),
        Some(String::from("n\u{e4}me=\u{26f3}"))
    );
}

#[test]
fn has_code_finds_the_key_anywhere() {
    assert!(has_code("code=abc"));
    assert!(has_code("state=1&code=abc"));
    assert!(has_code("code="));
    assert!(has_code("xcode=1"));
    assert!(has_code("\u{26f3}code=1"));
}

#[test]
fn has_code_wants_the_whole_key() {
    assert!(!has_code(""));
    assert!(!has_code("code"));
    assert!(!has_code("cod=e"));
    assert!(!has_code("access_token=xyz"));
    assert!(!has_code("CODE=abc"));
    assert!(!has_code("c\u{f6}de=abc"));
}

#[test]
fn relay_payload_follows_the_relay_prefix() {
    assert_eq!(
        relay_payload("/tokens?access_token=xyz&refresh_token=r"),
        Some(String::from("access_token=xyz&refresh_token=r"))
    );
    assert_eq!(relay_payload("/tokens?"), Some(String::new()));
    assert_eq!(relay_payload("/tokens?a?b"), Some(String::from("a?b")));
}

#[test]
fn relay_payload_of_another_target_is_none() {
    assert_eq!(relay_payload("/tokens"), None);
    assert_eq!(relay_payload("/token?access_token=xyz"), None);
    assert_eq!(relay_payload("/tokens/?access_token=xyz"), None);
    assert_eq!(relay_payload("/callback?code=abc"), None);
    assert_eq!(relay_payload("tokens?x"), None);
    assert_eq!(relay_payload(""), None);
}
