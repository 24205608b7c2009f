//! Session state machine behaviour, driven line by line as the connection
//! task drives it: command dispatch, the AUTH LOGIN exchange, the DATA
//! phase, and the ways a session ends.

use cctv_smtp::config::Config;
use cctv_smtp::session::{Outcome, Phase, Reply, Session};

const USER_B64: &str = "dXNlcg==";
const PASS_B64: &str = "cGFzcw==";

fn store() -> Config {
    Config::new(String::from("user"), String::from("pass"))
}

fn expect_reply(out: Outcome) -> Reply {
    match out {
        Outcome::Reply(r) => r,
        other => panic!("expected a plain reply, got {other:?}"),
    }
}

fn authenticate(session: &mut Session, cfg: &Config) {
    assert_eq!(expect_reply(session.on_line(cfg, "AUTH LOGIN\r\n")), Reply::UsernamePrompt);
    assert_eq!(
        expect_reply(session.on_line(cfg, &format!("{USER_B64}\r\n"))),
        Reply::PasswordPrompt
    );
    assert_eq!(expect_reply(session.on_line(cfg, &format!("{PASS_B64}\r\n"))), Reply::AuthSuccess);
    assert!(session.authenticated);
}

#[test]
fn helo_is_idempotent_and_never_authenticates() {
    let cfg = store();
    let mut session = Session::new();
    for _ in 0..3 {
        assert_eq!(expect_reply(session.on_line(&cfg, "HELO camera\r\n")), Reply::Hello);
        assert!(!session.authenticated);
        assert!(matches!(session.phase, Phase::AwaitingCommand));
    }
    assert_eq!(expect_reply(session.on_line(&cfg, "EHLO test\r\n")), Reply::Hello);
    assert_eq!(Reply::Hello.wire_line(), "250 Hello\r\n");
}

#[test]
fn verbs_are_recognised_without_regard_to_case() {
    let cfg = store();
    let mut session = Session::new();
    assert_eq!(expect_reply(session.on_line(&cfg, "helo\r\n")), Reply::Hello);
    assert_eq!(expect_reply(session.on_line(&cfg, "HELO\n")), Reply::Hello);
    assert_eq!(expect_reply(session.on_line(&cfg, "mAiL FROM:<a@b>\r\n")), Reply::Okay);
    assert_eq!(expect_reply(session.on_line(&cfg, "rcpt TO:<c@d>\r\n")), Reply::Okay);
    assert_eq!(expect_reply(session.on_line(&cfg, "auth login\r\n")), Reply::UsernamePrompt);
}

#[test]
fn auth_with_other_mechanism_is_not_recognised() {
    let cfg = store();
    let mut session = Session::new();
    assert_eq!(expect_reply(session.on_line(&cfg, "AUTH PLAIN\r\n")), Reply::AuthRequired);
    assert_eq!(expect_reply(session.on_line(&cfg, "AUTH  LOGIN\r\n")), Reply::AuthRequired);
    assert!(matches!(session.phase, Phase::AwaitingCommand));
}

#[test]
fn data_before_auth_is_rejected() {
    let cfg = store();
    let mut session = Session::new();
    assert_eq!(expect_reply(session.on_line(&cfg, "DATA\r\n")), Reply::AuthRequired);
    assert_eq!(Reply::AuthRequired.wire_line(), "530 Authentication required\r\n");
    assert!(matches!(session.phase, Phase::AwaitingCommand));
}

#[test]
fn unknown_commands_depend_on_authentication() {
    let cfg = store();
    let mut session = Session::new();
    assert_eq!(expect_reply(session.on_line(&cfg, "VRFY someone\r\n")), Reply::AuthRequired);
    authenticate(&mut session, &cfg);
    assert_eq!(expect_reply(session.on_line(&cfg, "VRFY someone\r\n")), Reply::Unrecognised);
    assert_eq!(Reply::Unrecognised.wire_line(), "500 Command unrecognised\r\n");
}

#[test]
fn wrong_password_leaves_session_unauthenticated() {
    let cfg = store();
    let mut session = Session::new();
    assert_eq!(expect_reply(session.on_line(&cfg, "AUTH LOGIN\r\n")), Reply::UsernamePrompt);
    assert_eq!(
        expect_reply(session.on_line(&cfg, &format!("{USER_B64}\r\n"))),
        Reply::PasswordPrompt
    );
    assert_eq!(expect_reply(session.on_line(&cfg, "d3Jvbmc=\r\n")), Reply::AuthFailure);
    assert_eq!(
        Reply::AuthFailure.wire_line(),
        "535 Authentication credentials invalid\r\n"
    );
    assert!(!session.authenticated);
    // A later DATA is still rejected: the failed exchange changed nothing.
    assert_eq!(expect_reply(session.on_line(&cfg, "DATA\r\n")), Reply::AuthRequired);
}

#[test]
fn successful_login_allows_data() {
    let cfg = store();
    let mut session = Session::new();
    assert_eq!(expect_reply(session.on_line(&cfg, "EHLO test\r\n")), Reply::Hello);
    authenticate(&mut session, &cfg);
    assert_eq!(expect_reply(session.on_line(&cfg, "DATA\r\n")), Reply::StartData);
    assert_eq!(
        Reply::StartData.wire_line(),
        "354 End data with <CR><LF>.<CR><LF>\r\n"
    );
    assert!(matches!(session.phase, Phase::Receiving { .. }));
}

#[test]
fn data_accumulates_lines_and_excludes_the_terminator() {
    let cfg = store();
    let mut session = Session::new();
    authenticate(&mut session, &cfg);
    assert_eq!(expect_reply(session.on_line(&cfg, "DATA\r\n")), Reply::StartData);
    assert!(matches!(session.on_line(&cfg, "Subject: CCTV Alarm\r\n"), Outcome::Collected));
    assert!(matches!(session.on_line(&cfg, "\r\n"), Outcome::Collected));
    assert!(matches!(session.on_line(&cfg, "body line\r\n"), Outcome::Collected));
    match session.on_line(&cfg, ".\r\n") {
        Outcome::Dispatch(payload) => {
            assert_eq!(payload, "Subject: CCTV Alarm\r\n\r\nbody line\r\n");
        },
        other => panic!("expected the payload, got {other:?}"),
    }
    assert!(matches!(session.phase, Phase::AwaitingCommand));
}

#[test]
fn terminator_is_recognised_with_surrounding_whitespace() {
    let cfg = store();
    let mut session = Session::new();
    authenticate(&mut session, &cfg);
    assert_eq!(expect_reply(session.on_line(&cfg, "DATA\r\n")), Reply::StartData);
    assert!(matches!(session.on_line(&cfg, "one\r\n"), Outcome::Collected));
    // A line of a period alone, however terminated, ends the phase; a line
    // whose trimmed form is more than the period does not.
    assert!(matches!(session.on_line(&cfg, "..\r\n"), Outcome::Collected));
    match session.on_line(&cfg, " . \r\n") {
        Outcome::Dispatch(payload) => assert_eq!(payload, "one\r\n..\r\n"),
        other => panic!("expected the payload, got {other:?}"),
    }
}

#[test]
fn each_data_command_starts_an_empty_buffer() {
    let cfg = store();
    let mut session = Session::new();
    authenticate(&mut session, &cfg);
    assert_eq!(expect_reply(session.on_line(&cfg, "DATA\r\n")), Reply::StartData);
    assert!(matches!(session.on_line(&cfg, "first\r\n"), Outcome::Collected));
    match session.on_line(&cfg, ".\r\n") {
        Outcome::Dispatch(payload) => assert_eq!(payload, "first\r\n"),
        other => panic!("expected the payload, got {other:?}"),
    }
    assert_eq!(expect_reply(session.on_line(&cfg, "DATA\r\n")), Reply::StartData);
    match session.on_line(&cfg, ".\r\n") {
        Outcome::Dispatch(payload) => assert_eq!(payload, ""),
        other => panic!("expected the payload, got {other:?}"),
    }
}

#[test]
fn quit_answers_and_closes() {
    let cfg = store();
    let mut session = Session::new();
    match session.on_line(&cfg, "QUIT\r\n") {
        Outcome::ReplyClose(r) => {
            assert_eq!(r, Reply::Bye);
            assert_eq!(r.wire_line(), "221 OK\r\n");
        },
        other => panic!("expected a closing reply, got {other:?}"),
    }
    assert!(matches!(session.phase, Phase::Closed));
}

#[test]
fn eof_closes_without_processing() {
    let cfg = store();
    let mut session = Session::new();
    authenticate(&mut session, &cfg);
    assert_eq!(expect_reply(session.on_line(&cfg, "DATA\r\n")), Reply::StartData);
    assert!(matches!(session.on_line(&cfg, "half a message\r\n"), Outcome::Collected));
    session.on_eof();
    assert!(matches!(session.phase, Phase::Closed));
    assert!(session.authenticated);
}
