//! Evidence gathering for attestation of a TDX confidential VM that exposes a
//! virtual TPM.
//!
//! The crate separates the decisions of the evidence-collection protocol from
//! the device and network calls that feed it. The [`collector`] module holds
//! the protocol as a verified state machine over plain byte values; an
//! unverified driver performs each requested read, fetch or signing operation
//! and hands the outcome back. The [`evidence`] module holds the bundle that a
//! successful collection yields and its serialization into the exchange
//! format, and [`detect`] holds the platform-detection decision.

use vstd::prelude::*;

pub mod collector;
pub mod detect;
pub mod errors;
pub mod evidence;
pub mod json;
pub mod laws;

verus! {

/// The attester for a TDX confidential VM with a virtual TPM. It carries no
/// state of its own: every collection it starts is independent, and nothing
/// persists across collections.
#[derive(Debug, Default)]
pub struct AzTdxVtpmAttester;

impl AzTdxVtpmAttester {
    /// Begins one evidence collection over the caller's report data, at the
    /// head of the collection protocol.
    pub fn start_collection(&self, report_data: Vec<u8>) -> (c: collector::Collection)
        ensures
            c@ == collector::start_state(report_data@),
    {
        collector::Collection::start(report_data)
    }
}

} // verus!
