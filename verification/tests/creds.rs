//! Credential store behaviour: encoded comparison, control-character
//! stripping, and the ways a candidate can stop matching.

use cctv_smtp::config::Config;

// "user" and "pass" in the stored encoding.
const USER_B64: &str = "dXNlcg==";
const PASS_B64: &str = "cGFzcw==";

fn store() -> Config {
    Config::new(String::from("user"), String::from("pass"))
}

#[test]
fn exact_encoded_pair_matches() {
    let cfg = store();
    assert!(cfg.creds_match(USER_B64.to_string(), PASS_B64.to_string()));
}

#[test]
fn wire_line_terminators_are_ignored() {
    let cfg = store();
    assert!(cfg.creds_match(format!("{USER_B64}\r\n"), format!("{PASS_B64}\r\n")));
    assert!(cfg.creds_match(format!("{USER_B64}\n"), PASS_B64.to_string()));
}

#[test]
fn control_characters_anywhere_are_ignored() {
    let cfg = store();
    assert!(cfg.creds_match(format!("dXNl\rcg==\r\n"), format!("cGF\u{7f}zcw==")));
}

#[test]
fn wrong_password_is_rejected() {
    let cfg = store();
    assert!(!cfg.creds_match(USER_B64.to_string(), "cGFzcw!=".to_string()));
    assert!(!cfg.creds_match(USER_B64.to_string(), "".to_string()));
}

#[test]
fn wrong_username_is_rejected() {
    let cfg = store();
    assert!(!cfg.creds_match("bm90dXNlcg==".to_string(), PASS_B64.to_string()));
    assert!(!cfg.creds_match("".to_string(), PASS_B64.to_string()));
}

#[test]
fn empty_candidates_only_match_empty_credentials() {
    let cfg = store();
    assert!(!cfg.creds_match(String::new(), String::new()));
    let empty = Config::new(String::new(), String::new());
    assert!(empty.creds_match(String::new(), String::new()));
}

#[test]
fn appending_a_real_character_breaks_a_match() {
    let cfg = store();
    assert!(!cfg.creds_match(format!("{USER_B64}x"), PASS_B64.to_string()));
    assert!(!cfg.creds_match(USER_B64.to_string(), format!("{PASS_B64}x")));
}
