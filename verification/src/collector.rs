//! The evidence-collection protocol as a verified state machine.
//!
//! Collection is strictly ordered: read the host report, extract the embedded
//! hardware report from it, trade that for a hardware quote, obtain a vTPM
//! quote over the caller's report data, then assemble and serialize the
//! bundle. The ordering carries security meaning, so it is represented
//! explicitly: a [`Collection`] value is always at one point of the chain,
//! [`Collection::pending_request`] names the one outside operation allowed
//! next, and each `supply_*` method advances the chain by one step or aborts
//! it. A failed collection is terminal — it requests nothing further — and no
//! step is ever retried.
//!
//! The driver that performs the requested operations is not part of this
//! module; it hands each outcome back as plain bytes (or a cause of failure)
//! and everything decided here is verified.

use vstd::prelude::*;

use crate::errors::CollectionError;
use crate::errors::ErrorKind;
use crate::evidence::Evidence;
use crate::evidence::TpmQuote;
use crate::evidence::TpmQuoteView;
use crate::evidence::evidence_json;
use crate::evidence::serialize_evidence;

verus! {

/// Where a collection stands, over the mathematical values involved.
pub enum PhaseView {
    /// Nothing has happened yet; the host report is wanted.
    AwaitingHostReport,
    /// The host report was read; its parse is wanted.
    AwaitingParse { host_report: Seq<u8> },
    /// The hardware report was extracted; the hardware quote is wanted.
    AwaitingHardwareQuote { host_report: Seq<u8>, hardware_report: Seq<u8> },
    /// The hardware quote arrived; the vTPM quote is wanted.
    AwaitingTpmQuote { host_report: Seq<u8>, hardware_quote: Seq<u8> },
    /// The bundle was assembled and serialized. Terminal.
    Complete { evidence: Seq<char> },
    /// A step failed and collection aborted. Terminal.
    Failed { kind: ErrorKind, cause: Seq<char> },
}

/// The mathematical value of a [`Collection`]: the report data it was started
/// with, and where it stands.
pub struct CollectionView {
    pub report_data: Seq<u8>,
    pub phase: PhaseView,
}

/// The one outside operation a collection allows next.
#[derive(Debug)]
pub enum Request {
    /// Read the raw host report from the vTPM-backed report store.
    FetchHostReport,
    /// Parse the host report and extract the embedded hardware report.
    ParseHostReport { host_report: Vec<u8> },
    /// Submit the hardware report to the quote-fetch service.
    FetchHardwareQuote { hardware_report: Vec<u8> },
    /// Ask the vTPM for a quote binding exactly these bytes.
    SignTpmQuote { report_data: Vec<u8> },
}

/// The mathematical value of a [`Request`].
pub enum RequestView {
    FetchHostReport,
    ParseHostReport { host_report: Seq<u8> },
    FetchHardwareQuote { hardware_report: Seq<u8> },
    SignTpmQuote { report_data: Seq<u8> },
}

impl View for Request {
    type V = RequestView;

    closed spec fn view(&self) -> RequestView {
        match self {
            Request::FetchHostReport => RequestView::FetchHostReport,
            Request::ParseHostReport { host_report } => RequestView::ParseHostReport {
                host_report: host_report@,
            },
            Request::FetchHardwareQuote { hardware_report } => RequestView::FetchHardwareQuote {
                hardware_report: hardware_report@,
            },
            Request::SignTpmQuote { report_data } => RequestView::SignTpmQuote {
                report_data: report_data@,
            },
        }
    }
}

/// The state a collection starts in.
pub open spec fn start_state(report_data: Seq<u8>) -> CollectionView {
    CollectionView { report_data, phase: PhaseView::AwaitingHostReport }
}

/// How the host-report read advances a collection: the report moves it to the
/// parse step, and a failed read aborts it, after which nothing further runs.
pub open spec fn host_report_step(
    s: CollectionView,
    outcome: Result<Seq<u8>, Seq<char>>,
) -> CollectionView
    recommends
        s.phase is AwaitingHostReport,
{
    match outcome {
        Ok(host_report) => CollectionView {
            phase: PhaseView::AwaitingParse { host_report },
            ..s
        },
        Err(cause) => CollectionView {
            phase: PhaseView::Failed { kind: ErrorKind::HostReportUnavailable, cause },
            ..s
        },
    }
}

/// How the parse advances a collection: the extracted hardware report moves it
/// to the hardware-quote step beside the untouched host report, and a
/// malformed host report aborts it before the quote service is ever asked.
pub open spec fn parse_step(
    s: CollectionView,
    outcome: Result<Seq<u8>, Seq<char>>,
) -> CollectionView
    recommends
        s.phase is AwaitingParse,
{
    match outcome {
        Ok(hardware_report) => CollectionView {
            phase: PhaseView::AwaitingHardwareQuote {
                host_report: s.phase->AwaitingParse_host_report,
                hardware_report,
            },
            ..s
        },
        Err(cause) => CollectionView {
            phase: PhaseView::Failed { kind: ErrorKind::HostReportMalformed, cause },
            ..s
        },
    }
}

/// How the hardware-quote fetch advances a collection: the quote moves it to
/// the vTPM step, and a service failure aborts it before the vTPM is ever
/// asked.
pub open spec fn hardware_quote_step(
    s: CollectionView,
    outcome: Result<Seq<u8>, Seq<char>>,
) -> CollectionView
    recommends
        s.phase is AwaitingHardwareQuote,
{
    match outcome {
        Ok(hardware_quote) => CollectionView {
            phase: PhaseView::AwaitingTpmQuote {
                host_report: s.phase->AwaitingHardwareQuote_host_report,
                hardware_quote,
            },
            ..s
        },
        Err(cause) => CollectionView {
            phase: PhaseView::Failed { kind: ErrorKind::QuoteServiceFailure, cause },
            ..s
        },
    }
}

/// How the vTPM quote finishes a collection: the quote is assembled with the
/// host report and hardware quote of this same collection into the bundle,
/// already serialized; a vTPM failure aborts. Serialization itself is total
/// and cannot fail.
pub open spec fn tpm_quote_step(
    s: CollectionView,
    outcome: Result<TpmQuoteView, Seq<char>>,
) -> CollectionView
    recommends
        s.phase is AwaitingTpmQuote,
{
    match outcome {
        Ok(tpm_quote) => CollectionView {
            phase: PhaseView::Complete {
                evidence: evidence_json(
                    tpm_quote,
                    s.phase->AwaitingTpmQuote_host_report,
                    s.phase->AwaitingTpmQuote_hardware_quote,
                ),
            },
            ..s
        },
        Err(cause) => CollectionView {
            phase: PhaseView::Failed { kind: ErrorKind::TpmQuoteFailure, cause },
            ..s
        },
    }
}

/// The one request open in a state: exactly one while collection runs, none
/// once it is complete or failed.
pub open spec fn request_of(s: CollectionView) -> Option<RequestView> {
    match s.phase {
        PhaseView::AwaitingHostReport => Some(RequestView::FetchHostReport),
        PhaseView::AwaitingParse { host_report } => Some(
            RequestView::ParseHostReport { host_report },
        ),
        PhaseView::AwaitingHardwareQuote { hardware_report, .. } => Some(
            RequestView::FetchHardwareQuote { hardware_report },
        ),
        PhaseView::AwaitingTpmQuote { .. } => Some(
            RequestView::SignTpmQuote { report_data: s.report_data },
        ),
        PhaseView::Complete { .. } => None,
        PhaseView::Failed { .. } => None,
    }
}

enum Phase {
    AwaitingHostReport,
    AwaitingParse { host_report: Vec<u8> },
    AwaitingHardwareQuote { host_report: Vec<u8>, hardware_report: Vec<u8> },
    AwaitingTpmQuote { host_report: Vec<u8>, hardware_quote: Vec<u8> },
    Complete { evidence: String },
    Failed { error: CollectionError },
}

impl View for Phase {
    type V = PhaseView;

    closed spec fn view(&self) -> PhaseView {
        match self {
            Phase::AwaitingHostReport => PhaseView::AwaitingHostReport,
            Phase::AwaitingParse { host_report } => PhaseView::AwaitingParse {
                host_report: host_report@,
            },
            Phase::AwaitingHardwareQuote { host_report, hardware_report } => {
                PhaseView::AwaitingHardwareQuote {
                    host_report: host_report@,
                    hardware_report: hardware_report@,
                }
            },
            Phase::AwaitingTpmQuote { host_report, hardware_quote } => {
                PhaseView::AwaitingTpmQuote {
                    host_report: host_report@,
                    hardware_quote: hardware_quote@,
                }
            },
            Phase::Complete { evidence } => PhaseView::Complete { evidence: evidence@ },
            Phase::Failed { error } => PhaseView::Failed {
                kind: error.kind,
                cause: error.cause@,
            },
        }
    }
}

/// One run of the evidence-collection protocol. Created by
/// [`Collection::start`]; advanced, one outcome at a time, by the `supply_*`
/// methods, each of which consumes the collection, so no step can be replayed
/// and no value can leak between runs.
pub struct Collection {
    report_data: Vec<u8>,
    phase: Phase,
}

impl View for Collection {
    type V = CollectionView;

    closed spec fn view(&self) -> CollectionView {
        CollectionView { report_data: self.report_data@, phase: self.phase@ }
    }
}

impl Collection {
    /// Begins a collection over the caller's report data. No constraint is
    /// placed on the data here; validating it is the vTPM capability's
    /// business.
    pub fn start(report_data: Vec<u8>) -> (c: Collection)
        ensures
            c@ == start_state(report_data@),
    {
        Collection { report_data, phase: Phase::AwaitingHostReport }
    }

    /// The one outside operation to perform next, if collection is still
    /// running. A complete or failed collection requests nothing: no
    /// operation ever runs after a failure.
    pub fn pending_request(&self) -> (r: Option<Request>)
        ensures
            r is Some <==> request_of(self@) is Some,
            r matches Some(req) ==> Some(req@) == request_of(self@),
    {
        match &self.phase {
            Phase::AwaitingHostReport => Some(Request::FetchHostReport),
            Phase::AwaitingParse { host_report } => Some(
                Request::ParseHostReport { host_report: clone_bytes(host_report) },
            ),
            Phase::AwaitingHardwareQuote { hardware_report, .. } => Some(
                Request::FetchHardwareQuote { hardware_report: clone_bytes(hardware_report) },
            ),
            Phase::AwaitingTpmQuote { .. } => Some(
                Request::SignTpmQuote { report_data: clone_bytes(&self.report_data) },
            ),
            Phase::Complete { .. } => None,
            Phase::Failed { .. } => None,
        }
    }

    /// Advances past the host-report read with its outcome.
    pub fn supply_host_report(self, outcome: Result<Vec<u8>, String>) -> (r: Collection)
        requires
            self@.phase is AwaitingHostReport,
        ensures
            outcome matches Ok(host_report) ==> r@ == host_report_step(self@, Ok(host_report@)),
            outcome matches Err(cause) ==> r@ == host_report_step(self@, Err(cause@)),
    {
        let Collection { report_data, phase: _ } = self;
        match outcome {
            Ok(host_report) => Collection {
                report_data,
                phase: Phase::AwaitingParse { host_report },
            },
            Err(cause) => Collection {
                report_data,
                phase: Phase::Failed {
                    error: CollectionError { kind: ErrorKind::HostReportUnavailable, cause },
                },
            },
        }
    }

    /// Advances past the host-report parse with its outcome: the extracted
    /// hardware report, or the cause on a malformed report.
    pub fn supply_parsed_report(self, outcome: Result<Vec<u8>, String>) -> (r: Collection)
        requires
            self@.phase is AwaitingParse,
        ensures
            outcome matches Ok(hardware_report) ==> r@ == parse_step(
                self@,
                Ok(hardware_report@),
            ),
            outcome matches Err(cause) ==> r@ == parse_step(self@, Err(cause@)),
    {
        let Collection { report_data, phase } = self;
        let host_report = match phase {
            Phase::AwaitingParse { host_report } => host_report,
            _ => vstd::pervasive::unreached(),
        };
        match outcome {
            Ok(hardware_report) => Collection {
                report_data,
                phase: Phase::AwaitingHardwareQuote { host_report, hardware_report },
            },
            Err(cause) => Collection {
                report_data,
                phase: Phase::Failed {
                    error: CollectionError { kind: ErrorKind::HostReportMalformed, cause },
                },
            },
        }
    }

    /// Advances past the hardware-quote fetch with its outcome.
    pub fn supply_hardware_quote(self, outcome: Result<Vec<u8>, String>) -> (r: Collection)
        requires
            self@.phase is AwaitingHardwareQuote,
        ensures
            outcome matches Ok(hardware_quote) ==> r@ == hardware_quote_step(
                self@,
                Ok(hardware_quote@),
            ),
            outcome matches Err(cause) ==> r@ == hardware_quote_step(self@, Err(cause@)),
    {
        let Collection { report_data, phase } = self;
        let host_report = match phase {
            Phase::AwaitingHardwareQuote { host_report, .. } => host_report,
            _ => vstd::pervasive::unreached(),
        };
        match outcome {
            Ok(hardware_quote) => Collection {
                report_data,
                phase: Phase::AwaitingTpmQuote { host_report, hardware_quote },
            },
            Err(cause) => Collection {
                report_data,
                phase: Phase::Failed {
                    error: CollectionError { kind: ErrorKind::QuoteServiceFailure, cause },
                },
            },
        }
    }

    /// Finishes the collection with the vTPM's outcome: on success the bundle
    /// is assembled from this collection's own host report and hardware quote
    /// and serialized at once.
    pub fn supply_tpm_quote(self, outcome: Result<TpmQuote, String>) -> (r: Collection)
        requires
            self@.phase is AwaitingTpmQuote,
        ensures
            outcome matches Ok(tpm_quote) ==> r@ == tpm_quote_step(self@, Ok(tpm_quote@)),
            outcome matches Err(cause) ==> r@ == tpm_quote_step(self@, Err(cause@)),
    {
        let Collection { report_data, phase } = self;
        let (host_report, hardware_quote) = match phase {
            Phase::AwaitingTpmQuote { host_report, hardware_quote } => (
                host_report,
                hardware_quote,
            ),
            _ => vstd::pervasive::unreached(),
        };
        match outcome {
            Ok(tpm_quote) => {
                let bundle = Evidence {
                    tpm_quote,
                    hcl_report: host_report,
                    tdx_quote: hardware_quote,
                };
                let evidence = serialize_evidence(&bundle);
                Collection { report_data, phase: Phase::Complete { evidence } }
            },
            Err(cause) => Collection {
                report_data,
                phase: Phase::Failed {
                    error: CollectionError { kind: ErrorKind::TpmQuoteFailure, cause },
                },
            },
        }
    }

    /// Whether collection finished successfully.
    pub fn is_complete(&self) -> (r: bool)
        ensures
            r == (self@.phase is Complete),
    {
        match &self.phase {
            Phase::Complete { .. } => true,
            _ => false,
        }
    }

    /// Whether collection aborted.
    pub fn is_failed(&self) -> (r: bool)
        ensures
            r == (self@.phase is Failed),
    {
        match &self.phase {
            Phase::Failed { .. } => true,
            _ => false,
        }
    }

    /// The serialized evidence bundle of a complete collection.
    pub fn evidence(&self) -> (r: Option<String>)
        ensures
            r is Some <==> self@.phase is Complete,
            r matches Some(evidence) ==> self@.phase matches PhaseView::Complete {
                evidence: e,
            } && evidence@ == e,
    {
        match &self.phase {
            Phase::Complete { evidence } => Some(evidence.clone()),
            _ => None,
        }
    }

    /// The failure of an aborted collection.
    pub fn error(&self) -> (r: Option<CollectionError>)
        ensures
            r is Some <==> self@.phase is Failed,
            r matches Some(error) ==> self@.phase matches PhaseView::Failed {
                kind,
                cause,
            } && error.kind == kind && error.cause@ == cause,
    {
        match &self.phase {
            Phase::Failed { error } => Some(
                CollectionError { kind: error.kind, cause: error.cause.clone() },
            ),
            _ => None,
        }
    }
}

/// Clones a byte vector; the copy holds the same bytes.
fn clone_bytes(v: &Vec<u8>) -> (r: Vec<u8>)
    ensures
        r@ == v@,
{
    let r = v.clone();
    proof {
        assert(r@ =~= v@);
    }
    r
}

} // verus!
