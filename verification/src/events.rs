//! The alarm event model: the structured record a camera embeds in the
//! body of its notification email, its display form, and the
//! classification of a webhook delivery attempt.

use vstd::prelude::*;
use vstd::string::StringExecFns;

use crate::text::{trim_spec, trim_str};

verus! {

/// The mathematical content of an [`AlarmEvent`].
pub struct AlarmEventView {
    pub input1: Option<Seq<char>>,
    pub event_type: Seq<char>,
    pub extra_text: Seq<char>,
    pub date_time: Seq<char>,
}

/// One camera alarm occurrence, decoded from an email body.  Transient:
/// built per received message and handed straight to the dispatcher.
#[derive(Debug, Clone)]
pub struct AlarmEvent {
    pub input1: Option<String>,
    pub event_type: String,
    pub extra_text: String,
    pub date_time: String,
}

impl View for AlarmEvent {
    type V = AlarmEventView;

    open spec fn view(&self) -> AlarmEventView {
        AlarmEventView {
            input1: self.input1.deep_view(),
            event_type: self.event_type@,
            extra_text: self.extra_text@,
            date_time: self.date_time@,
        }
    }
}

/// The display form of an event: `#<input1> | ` when `input1` is present
/// and not blank, then `<event_type> @ <date_time>`.
pub open spec fn display_of(e: AlarmEventView) -> Seq<char> {
    let tail = e.event_type + " @ "@ + e.date_time;
    match e.input1 {
        Some(input) => if trim_spec(input).len() > 0 {
            "#"@ + input + " | "@ + tail
        } else {
            tail
        },
        None => tail,
    }
}

impl AlarmEvent {
    /// Renders the event for logging, in its display form.
    pub fn display_string(&self) -> (r: String)
        ensures
            r@ == display_of(self@),
    {
        let mut out = String::new();
        match &self.input1 {
            Some(input) => {
                let t = trim_str(input.as_str());
                if !t.is_empty() {
                    out.append("#");
                    out.append(input.as_str());
                    out.append(" | ");
                }
            },
            None => {},
        }
        out.append(self.event_type.as_str());
        out.append(" @ ");
        out.append(self.date_time.as_str());
        proof {
            assert(out@ =~= display_of(self@));
        }
        out
    }
}

/// Why a webhook delivery attempt failed: a response with a status other
/// than 200, or a transport-level error carrying its text.
#[derive(Debug, Clone)]
pub enum DispatchError {
    BadStatus(u16),
    Transport(String),
}

/// Classifies the HTTP status of a webhook response: delivery succeeded
/// exactly when the webhook answered 200.
pub fn classify_webhook_status(status: u16) -> (r: Result<(), DispatchError>)
    ensures
        (r is Ok) == (status == 200),
        r matches Err(e) ==> e matches DispatchError::BadStatus(code) && code == status,
{
    if status == 200 {
        Ok(())
    } else {
        Err(DispatchError::BadStatus(status))
    }
}

} // verus!
