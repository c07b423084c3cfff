use tdx_vtpm_attester::detect::detection_from_probe;

#[test]
fn probe_success_is_reported() {
    assert!(detection_from_probe(Ok(true)));
    assert!(!detection_from_probe(Ok(false)));
}

#[test]
fn probe_failure_is_absorbed_into_false() {
    assert!(!detection_from_probe(Err(String::from("failed to retrieve report"))));
    assert!(!detection_from_probe(Err(String::new())));
}
