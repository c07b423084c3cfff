use tdx_vtpm_attester::evidence::Evidence;
use tdx_vtpm_attester::evidence::TpmQuote;
use tdx_vtpm_attester::evidence::serialize_evidence;

fn bundle(
    signature: Vec<u8>,
    message: Vec<u8>,
    pcrs: Vec<Vec<u8>>,
    hcl_report: Vec<u8>,
    tdx_quote: Vec<u8>,
) -> Evidence {
    Evidence {
        tpm_quote: TpmQuote { signature, message, pcrs },
        hcl_report,
        tdx_quote,
    }
}

#[test]
fn empty_bundle_encoding() {
    let ev = bundle(vec![], vec![], vec![], vec![], vec![]);
    assert_eq!(
        serialize_evidence(&ev),
        "{\"tpm_quote\":{\"signature\":[],\"message\":[],\"pcrs\":[]},\
         \"hcl_report\":[],\"tdx_quote\":[]}"
    );
}

#[test]
fn small_bundle_encoding() {
    let ev = bundle(
        vec![1, 2],
        vec![0],
        vec![vec![3], vec![4, 5]],
        vec![255, 0, 37],
        vec![10],
    );
    assert_eq!(
        serialize_evidence(&ev),
        "{\"tpm_quote\":{\"signature\":[1,2],\"message\":[0],\"pcrs\":[[3],[4,5]]},\
         \"hcl_report\":[255,0,37],\"tdx_quote\":[10]}"
    );
}

#[test]
fn decimal_boundaries_encoding() {
    let ev = bundle(vec![], vec![], vec![], vec![0, 9, 10, 99, 100, 255], vec![]);
    assert_eq!(
        serialize_evidence(&ev),
        "{\"tpm_quote\":{\"signature\":[],\"message\":[],\"pcrs\":[]},\
         \"hcl_report\":[0,9,10,99,100,255],\"tdx_quote\":[]}"
    );
}

fn as_bytes(value: &serde_json::Value) -> Vec<u8> {
    value
        .as_array()
        .expect("byte field must be an array")
        .iter()
        .map(|n| u8::try_from(n.as_u64().expect("byte must be a number")).expect("byte range"))
        .collect()
}

#[test]
fn encoding_decodes_with_exactly_three_fields() {
    let ev = bundle(
        vec![11, 22],
        vec![33],
        vec![vec![44, 55]],
        vec![66, 77, 88],
        vec![99],
    );
    let text = serialize_evidence(&ev);
    let value: serde_json::Value = serde_json::from_str(&text).expect("evidence must be JSON");
    let object = value.as_object().expect("evidence must be an object");
    assert_eq!(object.len(), 3);
    assert_eq!(as_bytes(&object["hcl_report"]), vec![66, 77, 88]);
    assert_eq!(as_bytes(&object["tdx_quote"]), vec![99]);
    let quote = object["tpm_quote"].as_object().expect("quote must be an object");
    assert_eq!(quote.len(), 3);
    assert_eq!(as_bytes(&quote["signature"]), vec![11, 22]);
    assert_eq!(as_bytes(&quote["message"]), vec![33]);
    let pcrs = quote["pcrs"].as_array().expect("pcrs must be an array");
    assert_eq!(pcrs.len(), 1);
    assert_eq!(as_bytes(&pcrs[0]), vec![44, 55]);
}
