//! Access policy behaviour: subject restriction, source address
//! restriction, and the banner gate on newly accepted peers.

use cctv_smtp::session::{accept_peer, Reply};
use cctv_smtp::state::{IpAddress, State};

fn state_with(alarm_subject: Option<&str>, accepted_ip: Option<IpAddress>) -> State {
    State::new(
        String::from("user"),
        String::from("pass"),
        String::from("http://127.0.0.1:9/hook"),
        String::from("hook-key"),
        alarm_subject.map(String::from),
        accepted_ip,
    )
}

#[test]
fn no_subject_restriction_accepts_everything() {
    let state = state_with(None, None);
    assert!(state.is_alarm_subject("CCTV Alarm"));
    assert!(state.is_alarm_subject(""));
    assert!(state.is_alarm_subject("anything at all"));
}

#[test]
fn subject_restriction_is_exact_equality() {
    let state = state_with(Some("CCTV Alarm"), None);
    assert!(state.is_alarm_subject("CCTV Alarm"));
    assert!(!state.is_alarm_subject("healthcheck"));
    assert!(!state.is_alarm_subject("cctv alarm"));
    assert!(!state.is_alarm_subject("CCTV Alarm "));
    assert!(!state.is_alarm_subject(""));
}

#[test]
fn no_address_restriction_accepts_everything() {
    let state = state_with(None, None);
    assert!(state.is_socketaddr_accepted(IpAddress::V4(0x7f000001)));
    assert!(state.is_socketaddr_accepted(IpAddress::V6(1)));
}

#[test]
fn address_restriction_is_exact_equality() {
    let allowed = IpAddress::V4(0xc0a80001);
    let state = state_with(None, Some(allowed));
    assert!(state.is_socketaddr_accepted(allowed));
    assert!(!state.is_socketaddr_accepted(IpAddress::V4(0xc0a80002)));
    assert!(!state.is_socketaddr_accepted(IpAddress::V6(0xc0a80001)));
}

#[test]
fn disallowed_peer_gets_no_session_and_no_banner() {
    let state = state_with(None, Some(IpAddress::V4(0xc0a80001)));
    assert!(accept_peer(&state, IpAddress::V4(0x7f000001)).is_none());
}

#[test]
fn allowed_peer_gets_fresh_session_and_greeting() {
    let state = state_with(None, Some(IpAddress::V4(0xc0a80001)));
    let (session, banner) = accept_peer(&state, IpAddress::V4(0xc0a80001)).unwrap();
    assert!(!session.authenticated);
    assert_eq!(banner, Reply::Greeting);
    assert_eq!(banner.wire_line(), "220 Welcome to the CCTV SMTP server\r\n");
}

#[test]
fn unrestricted_state_greets_any_peer() {
    let state = state_with(None, None);
    let (_, banner) = accept_peer(&state, IpAddress::V6(42)).unwrap();
    assert_eq!(banner, Reply::Greeting);
}
