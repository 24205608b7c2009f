//! The email screening pipeline: from an accepted DATA payload to a
//! verdict — reject the payload, ignore the message, or forward its body
//! to the alarm decoder and the webhook dispatcher.
//!
//! The MIME decoding itself is the mail_parser crate's work, reached
//! through one trusted wrapper; everything the pipeline decides from the
//! decoded parts is verified here.

use vstd::prelude::*;
use vstd::string::StringExecFns;

use crate::session::Reply;
use crate::state::{subject_allowed, State};
use crate::text::{trim_spec, trim_str};

verus! {

/// Whether the mail_parser crate finds a message (any headers at all) in a
/// raw DATA payload: a pure function of the payload.
pub uninterp spec fn mail_parses(raw: Seq<char>) -> bool;

/// The Subject header the mail_parser crate reads from a raw payload, when
/// one is present: a pure function of the payload.
pub uninterp spec fn mail_subject_of(raw: Seq<char>) -> Option<Seq<char>>;

/// The first text body part the mail_parser crate reads from a raw
/// payload, when one is present: a pure function of the payload.
pub uninterp spec fn mail_body_of(raw: Seq<char>) -> Option<Seq<char>>;

/// Relies on the mail_parser crate: `MessageParser::default().parse` (None
/// exactly when no message headers are found in the input, which depends
/// on the input alone), `Message::subject` and `Message::body_text(0)`
/// (the Subject header and the first text body part of the parsed
/// message, both functions of the input alone).
#[verifier::external_body]
fn decode_mail(raw: &str) -> (r: Option<(Option<String>, Option<String>)>)
    ensures
        (r is Some) == mail_parses(raw@),
        r matches Some(t) ==> t.0.deep_view() == mail_subject_of(raw@) && t.1.deep_view()
            == mail_body_of(raw@),
{
    let parser = mail_parser::MessageParser::default();
    match parser.parse(raw) {
        None => None,
        Some(message) => {
            let subject = message.subject().map(|s| s.to_owned());
            let body = message.body_text(0).map(|b| b.into_owned());
            Some((subject, body))
        },
    }
}

/// What becomes of one accepted DATA payload.
#[derive(Debug)]
pub enum DataVerdict {
    /// No email message could be decoded from the payload at all.
    Unparsable,
    /// The message decoded but its subject fails the access policy: it is
    /// not alarm traffic and is dropped without a trace on the wire.
    Ignored,
    /// The message decoded and passed the policy, but has no text body to
    /// decode an alarm record from.
    MissingBody,
    /// The message passed every check: its trimmed text body is ready for
    /// the alarm record decoder and the webhook dispatcher.
    Forward(String),
}

/// Screens one accepted DATA payload against the access policy: decodes
/// it as an email message, checks the subject (a missing subject counts
/// as the empty string), and extracts the trimmed text body.
pub fn screen_message(state: &State, data: &str) -> (v: DataVerdict)
    ensures
        (v is Unparsable) == !mail_parses(data@),
        (v is Ignored) == (mail_parses(data@) && !subject_allowed(
            state@,
            mail_subject_of(data@),
        )),
        (v is MissingBody) == (mail_parses(data@) && subject_allowed(
            state@,
            mail_subject_of(data@),
        ) && mail_body_of(data@) is None),
        (v is Forward) == (mail_parses(data@) && subject_allowed(state@, mail_subject_of(data@))
            && mail_body_of(data@) is Some),
        v matches DataVerdict::Forward(body) ==> mail_body_of(data@) matches Some(raw_body)
            && body@ == trim_spec(raw_body),
{
    match decode_mail(data) {
        None => DataVerdict::Unparsable,
        Some((subject, body)) => {
            let subject_ok = match &subject {
                Some(s) => state.is_alarm_subject(s.as_str()),
                None => {
                    proof {
                        reveal_strlit("");
                        assert(""@ =~= Seq::<char>::empty());
                    }
                    state.is_alarm_subject("")
                },
            };
            if !subject_ok {
                DataVerdict::Ignored
            } else {
                match body {
                    None => DataVerdict::MissingBody,
                    Some(b) => DataVerdict::Forward(String::from_str(trim_str(b.as_str()))),
                }
            }
        },
    }
}

/// The wire answer that ends the DATA phase: 550 exactly when no
/// email message could be decoded from the payload.  Ignored mail, a
/// missing body, and whatever later becomes of a forwarded body all
/// answer 250, so that the decoy behaves the same however the webhook
/// side fares.
pub fn verdict_reply(v: &DataVerdict) -> (r: Reply)
    ensures
        r == if v is Unparsable {
            Reply::ParseFailure
        } else {
            Reply::Accepted
        },
{
    match v {
        DataVerdict::Unparsable => Reply::ParseFailure,
        _ => Reply::Accepted,
    }
}

} // verus!
