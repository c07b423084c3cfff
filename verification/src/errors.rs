//! The failure taxonomy of evidence collection.
//!
//! Every failure of the collection protocol is one of these kinds, each tied
//! to the step at which collection aborted; the cause string carries the
//! original reason for diagnostics. Platform detection has no error of its
//! own: its probe failures are absorbed into `false` (see [`crate::detect`]).

use vstd::prelude::*;

verus! {

/// Which step of the collection protocol failed.
#[derive(Clone, Copy, Debug, PartialEq, Eq, Structural)]
pub enum ErrorKind {
    /// The host report could not be read from the report store.
    HostReportUnavailable,
    /// The host report was read but could not yield the embedded
    /// hardware-report sub-slice.
    HostReportMalformed,
    /// The hardware-quote fetch service failed.
    QuoteServiceFailure,
    /// The virtual TPM failed to produce a quote over the report data.
    TpmQuoteFailure,
    /// An assembled bundle could not be encoded. The collector proves this is
    /// never produced: serialization is total.
    SerializationFailure,
}

/// A collection failure: the step that aborted collection, and the cause the
/// failing capability reported.
#[derive(Debug)]
pub struct CollectionError {
    /// The step at which collection aborted.
    pub kind: ErrorKind,
    /// The underlying capability's account of the failure.
    pub cause: String,
}

} // verus!
