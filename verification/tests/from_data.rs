use hmac::{Mac, NewMac};
use magit::api::EventKind;
use magit::from_data::{
    accept_body, bytes_to_hex, check_request_headers, decode_payload, event_kind, try_decode_payload,
    validate, BAD_REQUEST, CONTENT_LEN, CONTENT_TYPE, INTERNAL_SERVER_ERROR, X_GITHUB_EVENT,
    X_HUB_SIGNATURE,
};

fn make_signature(secret: &str, body: &str) -> String {
    let mut mac = hmac::Hmac::<sha2::Sha256>::new_from_slice(secret.as_bytes())
        .expect("failed to create Hmac digest");
    mac.update(body.as_bytes());
    let tag = mac.finalize().into_bytes();
    format!("sha256={}", String::from_utf8_lossy(&bytes_to_hex(tag.as_slice())))
}

fn strings(items: &[&str]) -> Vec<String> {
    items.iter().map(|s| s.to_string()).collect()
}

#[test]
fn header_names() {
    assert_eq!(X_GITHUB_EVENT, "x-github-event");
    assert_eq!(X_HUB_SIGNATURE, "x-hub-signature-256");
    assert_eq!(CONTENT_LEN, "content-length");
    assert_eq!(CONTENT_TYPE, "content-type");
}

#[test]
fn hex_of_bytes() {
    assert_eq!(bytes_to_hex(&[]), b"".to_vec());
    assert_eq!(bytes_to_hex(&[0x00, 0xff, 0x1a, 0x90]), b"00ff1a90".to_vec());
}

#[test]
fn signed_body_validates() {
    let body = "{\"zen\":\"Keep it logically awesome.\"}";
    let signature = make_signature("test", body);
    assert!(validate("test", &signature, body));
}

#[test]
fn wrong_signatures_are_refused() {
    let body = "{\"action\":\"created\"}";
    let signature = make_signature("test", body);
    assert!(!validate("other secret", &signature, body));
    assert!(!validate("test", &signature, "{\"action\":\"deleted\"}"));
    assert!(!validate("test", "sha256=00", body));
    let upper = signature.to_uppercase().replace("SHA256=", "sha256=");
    assert!(!validate("test", &upper, body));
}

#[test]
fn known_hmac_value() {
    // HMAC-SHA256 of "The quick brown fox jumps over the lazy dog" under "key".
    let sig = "sha256=f7bc83f430538424b13298e6aa6fb143ef4d59a14946175997479dbc2d1a3cd8";
    assert!(validate("key", sig, "The quick brown fox jumps over the lazy dog"));
}

#[test]
fn headers_must_come_once() {
    let one = strings(&["application/json"]);
    let none: Vec<String> = vec![];
    let len = strings(&["1024"]);
    let sig = strings(&["sha256=abc"]);

    let err = check_request_headers(&none, &len, &sig).unwrap_err();
    assert_eq!((err.status, err.message.as_str()), (BAD_REQUEST, "Multiple content length headers"));
    let err = check_request_headers(&one, &strings(&["1", "2"]), &sig).unwrap_err();
    assert_eq!((err.status, err.message.as_str()), (BAD_REQUEST, "Multiple content length headers"));
    let err = check_request_headers(&one, &len, &none).unwrap_err();
    assert_eq!((err.status, err.message.as_str()), (BAD_REQUEST, "Multiple signature keys headers"));
    assert_eq!(check_request_headers(&one, &len, &sig).ok(), Some(1024));
}

#[test]
fn content_length_must_parse() {
    let one = strings(&["application/json"]);
    let sig = strings(&["sha256=abc"]);
    let err = check_request_headers(&one, &strings(&["lots"]), &sig).unwrap_err();
    assert_eq!(err.status, INTERNAL_SERVER_ERROR);
    assert_eq!(err.message, "Content length headers failed to parse");
    assert_eq!(check_request_headers(&one, &strings(&["2 KiB"]), &sig).ok(), Some(2048));
}

#[test]
fn body_checks_in_order() {
    let body = "{}".to_owned();
    let signature = make_signature("test", &body);
    let events = strings(&["push"]);

    let err = accept_body(Some("test"), &signature, &events, None).unwrap_err();
    assert_eq!((err.status, err.message.as_str()), (INTERNAL_SERVER_ERROR, "Content too large"));
    let err = accept_body(None, &signature, &events, Some(body.clone())).unwrap_err();
    assert_eq!((err.status, err.message.as_str()), (INTERNAL_SERVER_ERROR, "No secret key found"));
    let err = accept_body(Some("nope"), &signature, &events, Some(body.clone())).unwrap_err();
    assert_eq!((err.status, err.message.as_str()), (BAD_REQUEST, "Validation failed"));
    let err = accept_body(Some("test"), &signature, &vec![], Some(body.clone())).unwrap_err();
    assert_eq!((err.status, err.message.as_str()), (BAD_REQUEST, "No payload type specified in header"));
    let (name, read) = accept_body(Some("test"), &signature, &events, Some(body.clone())).ok().unwrap();
    assert_eq!(name, "push");
    assert_eq!(read, body);
}

#[test]
fn form_bodies_are_decoded() {
    let form = "application/x-www-form-urlencoded";
    assert_eq!(decode_payload(form, "payload=%7B%22a%22%3A1%7D".to_owned()), "{\"a\":1}");
    assert_eq!(try_decode_payload(form, "payload=%41".to_owned()), Some("A".to_owned()));
    assert_eq!(try_decode_payload(form, "pay".to_owned()), None);
    assert_eq!(decode_payload("application/json", "{\"a\":1}".to_owned()), "{\"a\":1}");
    assert_eq!(try_decode_payload("application/json", "x".to_owned()), Some("x".to_owned()));
}

#[test]
fn event_kinds_read() {
    assert_eq!(event_kind("star").ok(), Some(EventKind::Star));
    assert_eq!(event_kind("pull_request").ok(), Some(EventKind::PullRequest));
    assert_eq!(event_kind("ping").ok(), Some(EventKind::Ping));
    assert_eq!(event_kind("status").ok(), Some(EventKind::Status));
    let err = event_kind("fork").unwrap_err();
    assert_eq!((err.status, err.message.as_str()), (BAD_REQUEST, "Found unknown event `fork`"));
    let err = event_kind("dance").unwrap_err();
    assert_eq!(err.message, "Found unknown event `dance`");
}
