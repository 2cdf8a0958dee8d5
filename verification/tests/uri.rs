use base64::Engine;
use signal_setup::types::SignalError;
use signal_setup::uri::{parse_device_uri, percent_decode};

fn check_tsdevice() {
    let key_b64 = base64::engine::general_purpose::STANDARD.encode([5u8; 33]);
    let uri = format!("tsdevice:/?uuid=abc-123&pub_key={key_b64}");
    let (uuid, key) = parse_device_uri(&uri).unwrap();
    assert_eq!(uuid, "abc-123");
    assert_eq!(key.len(), 33);
}

fn check_sgnl() {
    let key_b64 = base64::engine::general_purpose::URL_SAFE_NO_PAD.encode([5u8; 33]);
    let uri = format!("sgnl://linkdevice?uuid=testid&pub_key={key_b64}");
    let (uuid, key) = parse_device_uri(&uri).unwrap();
    assert_eq!(uuid, "testid");
    assert_eq!(key, vec![5u8; 33]);
}

#[test]
fn http_test_parse_tsdevice_uri() {
    check_tsdevice();
}

#[test]
fn signal_http_test_parse_tsdevice_uri() {
    check_tsdevice();
}

#[test]
fn http_test_parse_sgnl_uri() {
    check_sgnl();
}

#[test]
fn signal_http_test_parse_sgnl_uri() {
    check_sgnl();
}

fn invalid_uri_message(uri: &str) -> String {
    match parse_device_uri(uri) {
        Err(SignalError::InvalidUri(m)) => m,
        _ => panic!("expected an invalid URI"),
    }
}

#[test]
fn device_uri_errors() {
    assert_eq!(invalid_uri_message("sgnl://linkdevice"), "URI has no query parameters");
    assert_eq!(invalid_uri_message("sgnl://linkdevice?pub_key=BQ"), "Missing 'uuid' parameter");
    assert_eq!(invalid_uri_message("sgnl://linkdevice?uuid=x"), "Missing 'pub_key' parameter");
    assert!(invalid_uri_message("sgnl://linkdevice?uuid=x&pub_key=%%%").starts_with("Bad base64 in pub_key: "));
}

#[test]
fn device_uri_percent_encoding_and_last_value() {
    // A padded, percent-encoded standard key, and a repeated uuid (the last wins).
    let key_b64 = base64::engine::general_purpose::STANDARD.encode([0xfbu8; 32]);
    let encoded = key_b64.replace('+', "%2B").replace('/', "%2F").replace('=', "%3D");
    let uri = format!("sgnl://linkdevice?uuid=first&uuid=a%20b&pub_key={encoded}");
    let (uuid, key) = parse_device_uri(&uri).unwrap();
    assert_eq!(uuid, "a b");
    assert_eq!(key, vec![0xfbu8; 32]);
}

#[test]
fn percent_decoding() {
    assert_eq!(percent_decode("a%2Fb%3d"), "a/b=");
    assert_eq!(percent_decode("100%"), "100%");
    assert_eq!(percent_decode("%zz"), "%zz");
    assert_eq!(percent_decode("%C3%A9"), "é");
}
