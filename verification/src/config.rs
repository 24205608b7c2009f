//! Credential store: the SMTP AUTH username and password, held in their
//! encoded form and compared against wire input.
//!
//! The values are obfuscated once, at construction, with the same encoding
//! the peer uses on the AUTH LOGIN exchange; a candidate from the wire is
//! stripped of control characters (stray CR/LF from line-based reads) and
//! compared for exact equality with the stored encoded form.  The encoding
//! is reversible obfuscation, not cryptographic protection.

use vstd::prelude::*;

use crate::text::{chars_eq_str, is_ctl_char, lemma_strip_push, strip_controls, strip_ctl};

verus! {

/// What the base64 crate's standard engine produces for the UTF-8 bytes of
/// a string: a fixed function of the input characters alone.
pub uninterp spec fn b64_of(s: Seq<char>) -> Seq<char>;

/// Relies on `base64::engine::general_purpose::STANDARD.encode` (base64
/// crate): standard-alphabet, padded base64 of the argument's UTF-8 bytes,
/// a pure function of the argument.
#[verifier::external_body]
fn base64_encode(v: &str) -> (r: String)
    ensures
        r@ == b64_of(v@),
{
    base64::Engine::encode(&base64::engine::general_purpose::STANDARD, v)
}

/// The mathematical content of a [`Config`]: both stored fields, in their
/// encoded form.
pub struct ConfigView {
    pub username: Seq<char>,
    pub password: Seq<char>,
}

/// Holds the encoded username and password that AUTH LOGIN input is
/// compared against.
#[derive(Debug, Clone)]
pub struct Config {
    username: String,
    password: String,
}

impl View for Config {
    type V = ConfigView;

    closed spec fn view(&self) -> ConfigView {
        ConfigView { username: self.username@, password: self.password@ }
    }
}

/// When a candidate pair matches a credential store: each candidate, with
/// control characters stripped, equals the stored encoded field exactly.
pub open spec fn matches_view(cfg: ConfigView, username: Seq<char>, password: Seq<char>) -> bool {
    strip_ctl(username) == cfg.username && strip_ctl(password) == cfg.password
}

impl Config {
    /// Builds the store from the configured (raw) credentials, applying the
    /// obfuscating encoding once.
    pub fn new(username: String, password: String) -> (r: Config)
        ensures
            r@.username == b64_of(username@),
            r@.password == b64_of(password@),
    {
        Config {
            username: base64_encode(username.as_str()),
            password: base64_encode(password.as_str()),
        }
    }

    /// Compares a candidate pair from the wire against the stored fields,
    /// ignoring control characters in the candidates.  Returns `false` on
    /// any mismatch, including empty input against non-empty credentials.
    pub fn creds_match(&self, username: String, password: String) -> (r: bool)
        ensures
            r == matches_view(self@, username@, password@),
    {
        self.creds_match_str(username.as_str(), password.as_str())
    }

    /// Borrowing form of [`Config::creds_match`], for callers that still own
    /// the candidate lines.
    pub fn creds_match_str(&self, username: &str, password: &str) -> (r: bool)
        ensures
            r == matches_view(self@, username@, password@),
    {
        let u = strip_controls(username);
        if !chars_eq_str(&u, self.username.as_str()) {
            return false;
        }
        let p = strip_controls(password);
        chars_eq_str(&p, self.password.as_str())
    }
}

/// Removing one control character anywhere in a sequence does not change
/// its stripped form.
pub proof fn lemma_strip_remove(s: Seq<char>, i: int)
    requires
        0 <= i < s.len(),
        is_ctl_char(s[i]),
    ensures
        strip_ctl(s.remove(i)) == strip_ctl(s),
    decreases s.len(),
{
    let t = s.drop_last();
    let c = s.last();
    assert(s =~= t.push(c));
    lemma_strip_push(t, c);
    if i == s.len() - 1 {
        assert(s.remove(i) =~= t);
    } else {
        assert(s.remove(i) =~= t.remove(i).push(c));
        lemma_strip_push(t.remove(i), c);
        lemma_strip_remove(t, i);
    }
}

/// Stripping any control character from either candidate never changes the
/// result of the comparison.
pub proof fn lemma_matches_ignores_controls(
    cfg: ConfigView,
    username: Seq<char>,
    password: Seq<char>,
    i: int,
    j: int,
)
    requires
        0 <= i < username.len(),
        is_ctl_char(username[i]),
        0 <= j < password.len(),
        is_ctl_char(password[j]),
    ensures
        matches_view(cfg, username.remove(i), password) == matches_view(cfg, username, password),
        matches_view(cfg, username, password.remove(j)) == matches_view(cfg, username, password),
{
    lemma_strip_remove(username, i);
    lemma_strip_remove(password, j);
}

/// Appending a non-control character to either candidate of a matching
/// pair always breaks the match.
pub proof fn lemma_matches_breaks_on_append(
    cfg: ConfigView,
    username: Seq<char>,
    password: Seq<char>,
    c: char,
)
    requires
        !is_ctl_char(c),
        matches_view(cfg, username, password),
    ensures
        !matches_view(cfg, username.push(c), password),
        !matches_view(cfg, username, password.push(c)),
{
    lemma_strip_push(username, c);
    lemma_strip_push(password, c);
    assert(strip_ctl(username.push(c)).len() == strip_ctl(username).len() + 1);
    assert(strip_ctl(password.push(c)).len() == strip_ctl(password).len() + 1);
}

} // verus!
