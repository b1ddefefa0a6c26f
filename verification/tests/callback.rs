use clubhouse::callback::{
    bound_port, BindError, CallbackSession, Directive, Incoming, Phase, Wait, CONFIRMATION_PAGE,
    PAGE_CONTENT_TYPE, RELAY_REPLY, RELAY_TIMEOUT_SECS,
};
use clubhouse::token::TokenSlot;

fn request(target: &str) -> Incoming {
    Incoming::Request(String::from(target))
}

#[test]
fn begin_discards_a_stale_payload() {
    let mut slot = TokenSlot::new();
    slot.store(String::from("code=stale"));
    let session = CallbackSession::begin(&mut slot);
    assert_eq!(session.phase(), Phase::AwaitingCallback);
    assert_eq!(slot.take(), None);
}

#[test]
fn code_in_redirect_wins_over_relayed_fragment() {
    let mut slot = TokenSlot::new();
    let mut session = CallbackSession::begin(&mut slot);
    assert_eq!(session.advance(&request("/callback?code=abc"), &mut slot), Directive::ServePage);
    assert_eq!(session.phase(), Phase::AwaitingRelay);
    let relay = request("/tokens?access_token=xyz");
    assert_eq!(session.advance(&relay, &mut slot), Directive::ServeOk);
    assert_eq!(session.phase(), Phase::Closed);
    assert_eq!(slot.take(), Some(String::from("code=abc")));
    assert_eq!(slot.take(), None);
}

#[test]
fn relayed_fragment_is_kept_when_redirect_has_no_code() {
    let mut slot = TokenSlot::new();
    let mut session = CallbackSession::begin(&mut slot);
    assert_eq!(session.advance(&request("/callback"), &mut slot), Directive::ServePage);
    assert!(slot.is_empty());
    let relay = request("/tokens?access_token=xyz");
    assert_eq!(session.advance(&relay, &mut slot), Directive::ServeOk);
    assert_eq!(slot.take(), Some(String::from("access_token=xyz")));
}

#[test]
fn redirect_with_other_query_stores_nothing() {
    let mut slot = TokenSlot::new();
    let mut session = CallbackSession::begin(&mut slot);
    let redirect = request("/callback?error=denied");
    assert_eq!(session.advance(&redirect, &mut slot), Directive::ServePage);
    assert!(slot.is_empty());
}

#[test]
fn timeout_without_code_leaves_nothing() {
    let mut slot = TokenSlot::new();
    let mut session = CallbackSession::begin(&mut slot);
    assert_eq!(session.advance(&request("/callback"), &mut slot), Directive::ServePage);
    assert_eq!(session.advance(&Incoming::TimedOut, &mut slot), Directive::Stop);
    assert_eq!(session.phase(), Phase::Closed);
    assert_eq!(slot.take(), None);
}

#[test]
fn timeout_after_code_keeps_the_code() {
    let mut slot = TokenSlot::new();
    let mut session = CallbackSession::begin(&mut slot);
    session.advance(&request("/?state=s&code=abc"), &mut slot);
    assert_eq!(session.advance(&Incoming::TimedOut, &mut slot), Directive::Stop);
    assert_eq!(slot.take(), Some(String::from("state=s&code=abc")));
}

#[test]
fn second_request_on_another_path_is_answered_but_not_kept() {
    let mut slot = TokenSlot::new();
    let mut session = CallbackSession::begin(&mut slot);
    session.advance(&request("/callback"), &mut slot);
    assert_eq!(session.advance(&request("/favicon.ico"), &mut slot), Directive::ServeOk);
    assert_eq!(session.phase(), Phase::Closed);
    assert_eq!(slot.take(), None);
}

#[test]
fn code_in_second_request_is_not_read_as_redirect() {
    let mut slot = TokenSlot::new();
    let mut session = CallbackSession::begin(&mut slot);
    session.advance(&request("/callback"), &mut slot);
    assert_eq!(session.advance(&request("/callback?code=late"), &mut slot), Directive::ServeOk);
    assert_eq!(slot.take(), None);
}

#[test]
fn socket_failure_before_redirect_closes_the_session() {
    let mut slot = TokenSlot::new();
    let mut session = CallbackSession::begin(&mut slot);
    assert_eq!(session.advance(&Incoming::Failed, &mut slot), Directive::Stop);
    assert_eq!(session.phase(), Phase::Closed);
    assert_eq!(slot.take(), None);
}

#[test]
fn closed_session_serves_nothing() {
    let mut slot = TokenSlot::new();
    let mut session = CallbackSession::begin(&mut slot);
    session.advance(&request("/callback"), &mut slot);
    session.advance(&Incoming::TimedOut, &mut slot);
    assert_eq!(session.advance(&request("/tokens?access_token=xyz"), &mut slot), Directive::Stop);
    assert_eq!(session.advance(&request("/callback?code=abc"), &mut slot), Directive::Stop);
    assert_eq!(session.phase(), Phase::Closed);
    assert_eq!(slot.take(), None);
}

#[test]
fn fragment_is_dropped_after_the_code_was_read() {
    let mut slot = TokenSlot::new();
    let mut session = CallbackSession::begin(&mut slot);
    session.advance(&request("/callback?code=abc"), &mut slot);
    assert_eq!(slot.take(), Some(String::from("code=abc")));
    let relay = request("/tokens?access_token=xyz");
    assert_eq!(session.advance(&relay, &mut slot), Directive::ServeOk);
    assert_eq!(session.phase(), Phase::Closed);
    assert!(slot.is_empty());
    assert_eq!(slot.take(), None);
}

#[test]
fn fragment_is_kept_after_an_early_read_of_nothing() {
    let mut slot = TokenSlot::new();
    let mut session = CallbackSession::begin(&mut slot);
    session.advance(&request("/callback"), &mut slot);
    assert_eq!(slot.take(), None);
    session.advance(&request("/tokens?access_token=xyz"), &mut slot);
    assert_eq!(slot.take(), Some(String::from("access_token=xyz")));
    assert_eq!(slot.take(), None);
}

#[test]
fn next_session_may_relay_again() {
    let mut slot = TokenSlot::new();
    let mut session = CallbackSession::begin(&mut slot);
    session.advance(&request("/callback?code=abc"), &mut slot);
    session.advance(&Incoming::TimedOut, &mut slot);
    let mut session = CallbackSession::begin(&mut slot);
    assert!(!session.resolved_via_code());
    assert_eq!(slot.take(), None);
    session.advance(&request("/callback"), &mut slot);
    session.advance(&request("/tokens?access_token=xyz"), &mut slot);
    assert_eq!(slot.take(), Some(String::from("access_token=xyz")));
}

#[test]
fn session_is_marked_when_the_redirect_carries_a_code() {
    let mut slot = TokenSlot::new();
    let mut session = CallbackSession::begin(&mut slot);
    assert!(!session.resolved_via_code());
    session.advance(&request("/callback?code=abc"), &mut slot);
    assert!(session.resolved_via_code());
    session.advance(&request("/tokens?access_token=xyz"), &mut slot);
    assert!(session.resolved_via_code());

    let mut session = CallbackSession::begin(&mut slot);
    session.advance(&request("/callback?state=1"), &mut slot);
    assert!(!session.resolved_via_code());
    session.advance(&request("/tokens?code=abc"), &mut slot);
    assert!(!session.resolved_via_code());
    assert_eq!(slot.take(), Some(String::from("code=abc")));
}

#[test]
fn relay_wait_is_five_seconds() {
    assert_eq!(RELAY_TIMEOUT_SECS, 5);
}

#[test]
fn only_the_relay_wait_is_bounded() {
    let mut slot = TokenSlot::new();
    let mut session = CallbackSession::begin(&mut slot);
    assert_eq!(session.awaits(), Wait::Unbounded);
    session.advance(&request("/callback?code=abc"), &mut slot);
    assert_eq!(session.awaits(), Wait::AtMost(5));
    session.advance(&Incoming::TimedOut, &mut slot);
    assert_eq!(session.awaits(), Wait::Over);
}

#[test]
fn replies_are_fixed() {
    assert_eq!(RELAY_REPLY, "ok");
    assert_eq!(PAGE_CONTENT_TYPE, "text/html");
    assert!(CONFIRMATION_PAGE.starts_with("\n<!DOCTYPE html>\n<html>\n<head>\n"));
    assert!(CONFIRMATION_PAGE.contains("    <title>Authentication Complete</title>\n"));
    assert!(CONFIRMATION_PAGE.ends_with("    </script>\n</body>\n</html>"));
    assert!(CONFIRMATION_PAGE.contains("<div class=\"container\">"));
    assert!(CONFIRMATION_PAGE.contains("const hash = window.location.hash.substring(1);"));
    assert!(CONFIRMATION_PAGE.contains("fetch('/tokens?' + hash, { method: 'POST' })"));
    assert!(CONFIRMATION_PAGE
        .contains("<p>You can close this tab and return to The Clubhouse.</p>"));
    assert_eq!(CONFIRMATION_PAGE.lines().count(), 35);
    assert_eq!(CONFIRMATION_PAGE.len(), 1178);
}

#[test]
fn bound_port_accepts_a_real_port() {
    assert_eq!(bound_port(Some(49152)), Ok(49152));
    assert_eq!(bound_port(Some(1)), Ok(1));
    assert_eq!(bound_port(Some(65535)), Ok(65535));
}

#[test]
fn bound_port_rejects_no_port() {
    assert_eq!(bound_port(None), Err(BindError::NoPort));
    assert_eq!(bound_port(Some(0)), Err(BindError::NoPort));
}

#[test]
fn bind_error_messages() {
    assert_eq!(BindError::NoPort.message(), "Failed to get server port");
    assert_eq!(BindError::Refused(String::from("address in use")).message(), "address in use");
}
