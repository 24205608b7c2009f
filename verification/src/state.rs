//! Shared per-process state: the credential store, the access policy
//! (optional required subject, optional allowed source address) and the
//! webhook configuration.  Constructed once at startup from plain values
//! and then only read.

use vstd::prelude::*;
use vstd::string::StringExecFns;

use crate::config::{b64_of, matches_view, Config, ConfigView};

verus! {

/// A peer or policy address, as plain values: the four octets of an IPv4
/// address packed big-endian, or the sixteen octets of an IPv6 address.
#[derive(Clone, Copy, PartialEq, Eq, Structural, Debug)]
pub enum IpAddress {
    V4(u32),
    V6(u128),
}

/// The mathematical content of a [`State`].
pub struct StateView {
    pub username: Seq<char>,
    pub password: Seq<char>,
    pub webhook_url: Seq<char>,
    pub webhook_key: Seq<char>,
    pub alarm_subject: Option<Seq<char>>,
    pub accepted_ip: Option<IpAddress>,
}

impl StateView {
    /// The credential-store part of the state.
    pub open spec fn creds(self) -> ConfigView {
        ConfigView { username: self.username, password: self.password }
    }
}

/// A subject equals the configured alarm subject, or no subject is required.
pub open spec fn subject_matches(sv: StateView, subject: Seq<char>) -> bool {
    match sv.alarm_subject {
        None => true,
        Some(required) => required == subject,
    }
}

/// [`subject_matches`] applied to an optional subject, a missing one
/// standing in as the empty string.
pub open spec fn subject_allowed(sv: StateView, subject: Option<Seq<char>>) -> bool {
    subject_matches(
        sv,
        match subject {
            Some(s) => s,
            None => Seq::empty(),
        },
    )
}

/// A peer address equals the configured allowed address, or no address
/// restriction is configured.
pub open spec fn addr_allowed(sv: StateView, ip: IpAddress) -> bool {
    match sv.accepted_ip {
        None => true,
        Some(allowed) => allowed == ip,
    }
}

/// Everything a session needs: credentials, access policy and webhook
/// configuration.  Immutable after construction.
#[derive(Debug, Clone)]
pub struct State {
    creds: Config,
    webhook_url: String,
    webhook_key: String,
    alarm_subject: Option<String>,
    accepted_ip: Option<IpAddress>,
}

impl View for State {
    type V = StateView;

    closed spec fn view(&self) -> StateView {
        StateView {
            username: self.creds@.username,
            password: self.creds@.password,
            webhook_url: self.webhook_url@,
            webhook_key: self.webhook_key@,
            alarm_subject: self.alarm_subject.deep_view(),
            accepted_ip: self.accepted_ip,
        }
    }
}

impl State {
    /// Builds the process state from configuration values, encoding the
    /// credentials once as the credential store does.
    pub fn new(
        username: String,
        password: String,
        webhook_url: String,
        webhook_key: String,
        alarm_subject: Option<String>,
        accepted_ip: Option<IpAddress>,
    ) -> (r: State)
        ensures
            r@.username == b64_of(username@),
            r@.password == b64_of(password@),
            r@.webhook_url == webhook_url@,
            r@.webhook_key == webhook_key@,
            r@.alarm_subject == alarm_subject.deep_view(),
            r@.accepted_ip == accepted_ip,
    {
        State {
            creds: Config::new(username, password),
            webhook_url,
            webhook_key,
            alarm_subject,
            accepted_ip,
        }
    }

    /// Compares an AUTH LOGIN candidate pair against the stored credentials;
    /// see [`Config::creds_match`].
    pub fn creds_match(&self, username: String, password: String) -> (r: bool)
        ensures
            r == matches_view(self@.creds(), username@, password@),
    {
        self.creds.creds_match(username, password)
    }

    /// True when the given subject passes the access policy: no subject is
    /// configured, or the subject equals the configured one exactly.
    pub fn is_alarm_subject(&self, subject: &str) -> (r: bool)
        ensures
            r == subject_matches(self@, subject@),
    {
        match &self.alarm_subject {
            None => true,
            Some(required) => {
                let s = String::from_str(subject);
                *required == s
            },
        }
    }

    /// True when a peer at the given address may open a session: no address
    /// is configured, or the peer's address equals the configured one.
    pub fn is_socketaddr_accepted(&self, ip: IpAddress) -> (r: bool)
        ensures
            r == addr_allowed(self@, ip),
    {
        match self.accepted_ip {
            None => true,
            Some(allowed) => allowed == ip,
        }
    }

    /// The credential store shared by every session.
    pub fn creds(&self) -> (r: &Config)
        ensures
            r@ == self@.creds(),
    {
        &self.creds
    }

    /// The configured webhook endpoint.
    pub fn webhook_url(&self) -> (r: &String)
        ensures
            r@ == self@.webhook_url,
    {
        &self.webhook_url
    }

    /// The configured webhook authorization value.
    pub fn webhook_key(&self) -> (r: &String)
        ensures
            r@ == self@.webhook_key,
    {
        &self.webhook_key
    }
}

} // verus!
