//! Protocol runtime for a host that drives an external agent process.
//!
//! The host side of the agent protocol is split in two: the decision and
//! aggregation logic lives here, stated and proved over plain values, while
//! the surrounding program owns the subprocess, the channels and the wire
//! transport and feeds their outcomes into these functions.

use vstd::prelude::*;

pub mod errors;
pub mod host;
pub mod jira;
pub mod session;
pub mod setup;
pub mod state;
pub mod worker;

verus! {

/// Declares `serde_json::Value` so that the structured `meta` payload an
/// agent attaches to a prompt response can be carried through the runtime.
/// The runtime never looks inside such a value; it only hands it onward.
#[verifier::external_type_specification]
#[verifier::external_body]
pub struct ExValue(serde_json::Value);

} // verus!
