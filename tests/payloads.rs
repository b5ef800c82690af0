use proxmox_acme_core::payload::{finalize_payload, is_pem, order_payload, revocation_payload};

#[test]
fn finalize_payload_encodes_csr() {
    assert_eq!(finalize_payload(&[0xfb, 0xff, 0x00]), br#"{"csr":"-_8A"}"#.to_vec());
}

#[test]
fn revocation_payload_with_and_without_reason() {
    assert_eq!(revocation_payload(b"ab", None), br#"{"certificate":"YWI"}"#.to_vec());
    assert_eq!(revocation_payload(b"ab", Some(4)), br#"{"certificate":"YWI","reason":4}"#.to_vec());
}

#[test]
fn pem_detection() {
    assert!(is_pem(b"-----BEGIN CERTIFICATE-----\nMII"));
    assert!(!is_pem(&[0x30, 0x82, 0x01]));
    assert!(!is_pem(b"-----BEG"));
}

#[test]
fn order_payload_lists_domains() {
    let one = order_payload(&vec!["example.com".to_string()]);
    assert_eq!(one, br#"{"identifiers":[{"type":"dns","value":"example.com"}]}"#.to_vec());
    let two = order_payload(&vec!["a.example".to_string(), "b\"\\\n".to_string()]);
    assert_eq!(
        String::from_utf8(two).unwrap(),
        r#"{"identifiers":[{"type":"dns","value":"a.example"},{"type":"dns","value":"b\"\\\u000a"}]}"#
    );
    let parsed: serde_json::Value =
        serde_json::from_slice(&order_payload(&vec!["x\ty".to_string()])).unwrap();
    assert_eq!(parsed["identifiers"][0]["value"], "x\ty");
    assert_eq!(order_payload(&vec![]), br#"{"identifiers":[]}"#.to_vec());
}
