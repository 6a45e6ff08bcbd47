//! Verification of zkLogin signatures: the decision logic of the service.
//!
//! The crate holds the cache of identity-provider signing keys, the table of
//! networks, the schedule by which the cache is refreshed, and the pipeline
//! that takes one verification request from its encoded fields to a verdict.
//! Network traffic, signature parsing and the proof check itself are done by
//! the caller, who is told what to do next and reports what came of it.

pub mod network;
pub mod jwk;
pub mod snapshot;
pub mod encoding;
pub mod store;
pub mod request;
pub mod refresher;
pub mod pipeline;
pub mod outcome;

pub use network::{ProofEnvironment, SuiEnv};
pub use pipeline::{verify, Action, Event, Verification};
pub use request::{IntentScope, VerifyError, VerifyRequest, VerifyResponse};
pub use store::{AppState, JwkStore};
