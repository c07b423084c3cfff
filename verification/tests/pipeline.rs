use tdx_vtpm_attester::AzTdxVtpmAttester;
use tdx_vtpm_attester::collector::Collection;
use tdx_vtpm_attester::collector::Request;
use tdx_vtpm_attester::errors::ErrorKind;
use tdx_vtpm_attester::evidence::TpmQuote;

fn quote(signature: Vec<u8>, message: Vec<u8>, pcrs: Vec<Vec<u8>>) -> TpmQuote {
    TpmQuote { signature, message, pcrs }
}

/// Drives a collection through every step with the given outcomes, checking
/// the request order on the way.
fn run_to_completion(
    report_data: Vec<u8>,
    host_report: Vec<u8>,
    hardware_report: Vec<u8>,
    hardware_quote: Vec<u8>,
    tpm_quote: TpmQuote,
) -> Collection {
    let c = Collection::start(report_data.clone());
    assert!(matches!(c.pending_request(), Some(Request::FetchHostReport)));

    let c = c.supply_host_report(Ok(host_report.clone()));
    match c.pending_request() {
        Some(Request::ParseHostReport { host_report: h }) => assert_eq!(h, host_report),
        other => panic!("expected a parse request, got {:?}", other),
    }

    let c = c.supply_parsed_report(Ok(hardware_report.clone()));
    match c.pending_request() {
        Some(Request::FetchHardwareQuote { hardware_report: h }) => {
            assert_eq!(h, hardware_report)
        }
        other => panic!("expected a hardware-quote request, got {:?}", other),
    }

    let c = c.supply_hardware_quote(Ok(hardware_quote));
    match c.pending_request() {
        Some(Request::SignTpmQuote { report_data: d }) => assert_eq!(d, report_data),
        other => panic!("expected a signing request, got {:?}", other),
    }

    let c = c.supply_tpm_quote(Ok(tpm_quote));
    assert!(c.is_complete());
    assert!(!c.is_failed());
    assert!(c.pending_request().is_none());
    c
}

#[test]
fn successful_collection_with_empty_report_data() {
    let attester = AzTdxVtpmAttester::default();
    let c = attester.start_collection(vec![]);
    assert!(matches!(c.pending_request(), Some(Request::FetchHostReport)));
    let c = c.supply_host_report(Ok(vec![1, 2, 3]));
    let c = c.supply_parsed_report(Ok(vec![4, 5]));
    let c = c.supply_hardware_quote(Ok(vec![6]));
    match c.pending_request() {
        Some(Request::SignTpmQuote { report_data }) => {
            assert_eq!(report_data, Vec::<u8>::new())
        }
        other => panic!("expected a signing request, got {:?}", other),
    }
    let c = c.supply_tpm_quote(Ok(quote(vec![7], vec![8, 9], vec![])));
    assert!(c.is_complete());
    assert_eq!(
        c.evidence().expect("complete collection must carry evidence"),
        "{\"tpm_quote\":{\"signature\":[7],\"message\":[8,9],\"pcrs\":[]},\
         \"hcl_report\":[1,2,3],\"tdx_quote\":[6]}"
    );
}

#[test]
fn host_report_failure_aborts_collection() {
    let c = Collection::start(vec![1]);
    let c = c.supply_host_report(Err(String::from("device busy")));
    assert!(c.is_failed());
    assert!(!c.is_complete());
    assert!(c.pending_request().is_none());
    assert!(c.evidence().is_none());
    let error = c.error().expect("failed collection must carry an error");
    assert_eq!(error.kind, ErrorKind::HostReportUnavailable);
    assert_eq!(error.cause, "device busy");
}

#[test]
fn malformed_host_report_aborts_collection() {
    let c = Collection::start(vec![1]);
    let c = c.supply_host_report(Ok(vec![0, 0]));
    let c = c.supply_parsed_report(Err(String::from("invalid report size")));
    assert!(c.is_failed());
    assert!(c.pending_request().is_none());
    let error = c.error().expect("failed collection must carry an error");
    assert_eq!(error.kind, ErrorKind::HostReportMalformed);
    assert_eq!(error.cause, "invalid report size");
}

#[test]
fn quote_service_failure_aborts_collection() {
    let c = Collection::start(vec![1]);
    let c = c.supply_host_report(Ok(vec![0, 0]));
    let c = c.supply_parsed_report(Ok(vec![9]));
    let c = c.supply_hardware_quote(Err(String::from("endpoint unreachable")));
    assert!(c.is_failed());
    assert!(c.pending_request().is_none());
    let error = c.error().expect("failed collection must carry an error");
    assert_eq!(error.kind, ErrorKind::QuoteServiceFailure);
    assert_eq!(error.cause, "endpoint unreachable");
}

#[test]
fn tpm_failure_aborts_collection() {
    let c = Collection::start(vec![1]);
    let c = c.supply_host_report(Ok(vec![0, 0]));
    let c = c.supply_parsed_report(Ok(vec![9]));
    let c = c.supply_hardware_quote(Ok(vec![8]));
    let c = c.supply_tpm_quote(Err(String::from("data too large")));
    assert!(c.is_failed());
    assert!(c.pending_request().is_none());
    let error = c.error().expect("failed collection must carry an error");
    assert_eq!(error.kind, ErrorKind::TpmQuoteFailure);
    assert_eq!(error.cause, "data too large");
}

#[test]
fn identical_report_data_binds_identically() {
    let report_data = vec![9, 9];

    let first = Collection::start(report_data.clone());
    let first = first.supply_host_report(Ok(vec![1, 1, 1]));
    let first = first.supply_parsed_report(Ok(vec![2]));
    let first = first.supply_hardware_quote(Ok(vec![3]));

    let second = Collection::start(report_data.clone());
    let second = second.supply_host_report(Ok(vec![7, 7, 7, 7]));
    let second = second.supply_parsed_report(Ok(vec![8]));
    let second = second.supply_hardware_quote(Ok(vec![9]));

    for c in [&first, &second] {
        match c.pending_request() {
            Some(Request::SignTpmQuote { report_data: d }) => assert_eq!(d, report_data),
            other => panic!("expected a signing request, got {:?}", other),
        }
    }

    let first = first.supply_tpm_quote(Ok(quote(vec![1], vec![9, 9], vec![])));
    let second = second.supply_tpm_quote(Ok(quote(vec![2], vec![9, 9], vec![])));
    assert!(first.is_complete());
    assert!(second.is_complete());
    // The host-report and hardware-quote bytes legitimately differ between
    // runs; only the binding of the report data is asserted above.
}

#[test]
fn no_hidden_retry_across_collections() {
    let first = run_to_completion(
        vec![5],
        vec![1, 2],
        vec![3],
        vec![4],
        quote(vec![6], vec![7], vec![vec![0; 4]]),
    );

    let second = Collection::start(vec![5]);
    let second = second.supply_host_report(Err(String::from("read failed")));
    assert!(second.is_failed());
    assert_eq!(
        second.error().expect("failed collection must carry an error").kind,
        ErrorKind::HostReportUnavailable
    );
    assert!(second.pending_request().is_none());

    // The first collection is untouched by the second one's failure.
    assert!(first.is_complete());
    assert!(first.evidence().is_some());
}
