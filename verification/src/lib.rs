//! Decoy SMTP endpoint for a CCTV alarm system.
//!
//! The library holds the verified core: the credential store, the access
//! policy, the alarm event model, the SMTP session state machine and the
//! screening pipeline that turns an accepted DATA payload into a webhook
//! dispatch plan.  Network and HTTP plumbing live outside the library and
//! drive these functions with plain values.

pub mod config;
pub mod events;
pub mod pipeline;
pub mod session;
pub mod state;
pub mod text;
