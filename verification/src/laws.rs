//! The protocol-wide guarantees of evidence collection, stated and proved
//! once over the step functions of [`crate::collector`].

use vstd::prelude::*;

use crate::collector::CollectionView;
use crate::collector::PhaseView;
use crate::collector::RequestView;
use crate::collector::hardware_quote_step;
use crate::collector::host_report_step;
use crate::collector::parse_step;
use crate::collector::request_of;
use crate::collector::start_state;
use crate::collector::tpm_quote_step;
use crate::errors::ErrorKind;
use crate::evidence::TpmQuoteView;
use crate::evidence::evidence_json;

verus! {

/// Law: no step of the protocol touches the report data a collection was
/// started with, so whatever a run sees, the vTPM is eventually asked to bind
/// exactly the caller's bytes.
pub proof fn law_steps_preserve_report_data(
    s: CollectionView,
    bytes_outcome: Result<Seq<u8>, Seq<char>>,
    quote_outcome: Result<TpmQuoteView, Seq<char>>,
)
    ensures
        host_report_step(s, bytes_outcome).report_data == s.report_data,
        parse_step(s, bytes_outcome).report_data == s.report_data,
        hardware_quote_step(s, bytes_outcome).report_data == s.report_data,
        tpm_quote_step(s, quote_outcome).report_data == s.report_data,
{
}

/// Law: the signing request binds the report data byte for byte — two
/// collections started with the same report data issue identical signing
/// requests when each reaches the vTPM step, whatever host reports and
/// hardware quotes each saw on the way there.
pub proof fn law_signing_request_binds_report_data(s1: CollectionView, s2: CollectionView)
    requires
        s1.phase is AwaitingTpmQuote,
        s2.phase is AwaitingTpmQuote,
        s1.report_data == s2.report_data,
    ensures
        request_of(s1) == request_of(s2),
        request_of(s1) == Some(RequestView::SignTpmQuote { report_data: s1.report_data }),
{
}

/// Law: a failed host-report read aborts the whole collection as
/// `HostReportUnavailable`, and the aborted collection requests nothing — in
/// particular, neither the quote service nor the vTPM is ever asked.
pub proof fn law_host_report_failure_halts(s: CollectionView, cause: Seq<char>)
    requires
        s.phase is AwaitingHostReport,
    ensures
        host_report_step(s, Err(cause)).phase == (PhaseView::Failed {
            kind: ErrorKind::HostReportUnavailable,
            cause,
        }),
        request_of(host_report_step(s, Err(cause))) is None,
{
}

/// Law: a host report that cannot yield the hardware report aborts the
/// collection as `HostReportMalformed`, and the aborted collection requests
/// nothing — the quote service is never invoked.
pub proof fn law_malformed_report_halts(s: CollectionView, cause: Seq<char>)
    requires
        s.phase is AwaitingParse,
    ensures
        parse_step(s, Err(cause)).phase == (PhaseView::Failed {
            kind: ErrorKind::HostReportMalformed,
            cause,
        }),
        request_of(parse_step(s, Err(cause))) is None,
{
}

/// Law: a quote-service failure aborts the collection as
/// `QuoteServiceFailure`, and the aborted collection requests nothing — the
/// vTPM is never asked, so ordering holds on the failure path too.
pub proof fn law_quote_service_failure_halts(s: CollectionView, cause: Seq<char>)
    requires
        s.phase is AwaitingHardwareQuote,
    ensures
        hardware_quote_step(s, Err(cause)).phase == (PhaseView::Failed {
            kind: ErrorKind::QuoteServiceFailure,
            cause,
        }),
        request_of(hardware_quote_step(s, Err(cause))) is None,
{
}

/// Law: a vTPM failure aborts the collection as `TpmQuoteFailure`, and the
/// aborted collection requests nothing further.
pub proof fn law_tpm_failure_halts(s: CollectionView, cause: Seq<char>)
    requires
        s.phase is AwaitingTpmQuote,
    ensures
        tpm_quote_step(s, Err(cause)).phase == (PhaseView::Failed {
            kind: ErrorKind::TpmQuoteFailure,
            cause,
        }),
        request_of(tpm_quote_step(s, Err(cause))) is None,
{
}

/// Whether a state is free of the one failure the protocol can never
/// produce: serialization of an assembled bundle is total, so no collection
/// ever aborts as `SerializationFailure`.
pub open spec fn no_serialization_failure(s: CollectionView) -> bool {
    s.phase matches PhaseView::Failed { kind, .. } ==> kind != ErrorKind::SerializationFailure
}

/// Law: no reachable state carries `SerializationFailure` — not the start
/// state, and not the result of any step on any outcome.
pub proof fn law_serialization_never_fails(
    report_data: Seq<u8>,
    s: CollectionView,
    bytes_outcome: Result<Seq<u8>, Seq<char>>,
    quote_outcome: Result<TpmQuoteView, Seq<char>>,
)
    ensures
        no_serialization_failure(start_state(report_data)),
        no_serialization_failure(host_report_step(s, bytes_outcome)),
        no_serialization_failure(parse_step(s, bytes_outcome)),
        no_serialization_failure(hardware_quote_step(s, bytes_outcome)),
        no_serialization_failure(tpm_quote_step(s, quote_outcome)),
{
}

/// Law: a run in which every capability succeeds runs the whole ordered
/// protocol and completes, and its evidence is exactly the exchange encoding
/// of that run's own vTPM quote, host report and hardware quote — the host
/// report as read, the hardware quote as fetched, nothing mixed in from
/// anywhere else. This holds for every report data, the empty sequence
/// included.
pub proof fn law_successful_run_completes(
    report_data: Seq<u8>,
    host_report: Seq<u8>,
    hardware_report: Seq<u8>,
    hardware_quote: Seq<u8>,
    tpm_quote: TpmQuoteView,
)
    ensures
        ({
            let finished = tpm_quote_step(
                hardware_quote_step(
                    parse_step(
                        host_report_step(start_state(report_data), Ok(host_report)),
                        Ok(hardware_report),
                    ),
                    Ok(hardware_quote),
                ),
                Ok(tpm_quote),
            );
            &&& finished.report_data == report_data
            &&& finished.phase == (PhaseView::Complete {
                evidence: evidence_json(tpm_quote, host_report, hardware_quote),
            })
            &&& request_of(finished) is None
        }),
{
}

} // verus!
