use enclave_net::context::CageContext;
use enclave_net::crypto_api::{
    api_decision, build_request, route_request, ApiDecision, ApiRoute, CryptoApiError,
};
use enclave_net::e3::{check_e3_status, e3_uri, is_success_status, parse_response, E3Error};
use enclave_net::json::escape_json_bytes;

fn test_context() -> CageContext {
    CageContext::new(
        "team-uuid-1".to_string(),
        "app-uuid-1".to_string(),
        "cage-uuid-1".to_string(),
        "my-cage".to_string(),
    )
}

#[test]
fn routing_table() {
    assert!(matches!(route_request("POST", "/encrypt"), ApiRoute::Encrypt));
    assert!(matches!(route_request("POST", "/decrypt"), ApiRoute::Decrypt));
    assert!(matches!(route_request("GET", "/attestation-doc"), ApiRoute::AttestationDoc));
    assert!(matches!(route_request("GET", "/encrypt"), ApiRoute::NotFound));
    assert!(matches!(route_request("POST", "/attestation-doc"), ApiRoute::NotFound));
    assert!(matches!(route_request("PUT", "/other"), ApiRoute::NotFound));
}

#[test]
fn encrypt_with_api_key_builds_the_e3_call() {
    let ctx = test_context();
    let body = b"{\"x\": 1}".to_vec();
    let d = api_decision("POST", "/encrypt", Some("k".to_string()), &body, &ctx);
    match d {
        ApiDecision::CallE3 { route, api_key, payload } => {
            assert!(matches!(route, ApiRoute::Encrypt));
            assert_eq!(api_key, "k");
            let sent = payload.to_body_bytes();
            let v: serde_json::Value = serde_json::from_slice(&sent).unwrap();
            assert_eq!(v.get("team_uuid").unwrap().as_str().unwrap(), "team-uuid-1");
            assert_eq!(v.get("app_uuid").unwrap().as_str().unwrap(), "app-uuid-1");
            let expected: serde_json::Value = serde_json::from_str("{\"x\":1}").unwrap();
            assert_eq!(v.get("data").unwrap(), &expected);
        },
        _ => panic!("expected the call to go to E3"),
    }
}

#[test]
fn missing_api_key_is_refused_without_contacting_e3() {
    let ctx = test_context();
    let body = b"{\"x\": 1}".to_vec();
    let d = api_decision("POST", "/encrypt", None, &body, &ctx);
    assert!(!matches!(d, ApiDecision::CallE3 { .. }));
    assert!(matches!(
        d,
        ApiDecision::Fail { error: CryptoApiError::MissingApiKey }
    ));
    let d = api_decision("POST", "/decrypt", None, &body, &ctx);
    assert!(matches!(
        d,
        ApiDecision::Fail { error: CryptoApiError::MissingApiKey }
    ));
}

#[test]
fn invalid_json_body_is_a_serde_error() {
    let ctx = test_context();
    let body = b"{not json".to_vec();
    let d = api_decision("POST", "/encrypt", Some("k".to_string()), &body, &ctx);
    assert!(matches!(
        d,
        ApiDecision::Fail { error: CryptoApiError::SerdeError }
    ));
}

#[test]
fn unknown_route_is_not_found() {
    let ctx = test_context();
    let d = api_decision("GET", "/nothing", Some("k".to_string()), &b"{}".to_vec(), &ctx);
    assert!(matches!(d, ApiDecision::NotFound));
}

#[test]
fn attestation_request_fields_are_read() {
    let ctx = test_context();
    let body = b"{\"nonce\": \"abc\", \"challenge\": \"xyz\"}".to_vec();
    let d = api_decision("GET", "/attestation-doc", None, &body, &ctx);
    match d {
        ApiDecision::Attestation { request } => {
            assert_eq!(request.nonce.as_deref(), Some("abc"));
            assert_eq!(request.challenge.as_deref(), Some("xyz"));
        },
        _ => panic!("expected an attestation decision"),
    }
    let body = b"{}".to_vec();
    match api_decision("GET", "/attestation-doc", None, &body, &ctx) {
        ApiDecision::Attestation { request } => {
            assert!(request.nonce.is_none());
            assert!(request.challenge.is_none());
        },
        _ => panic!("expected an attestation decision"),
    }
}

#[test]
fn build_request_canonicalizes_the_body() {
    let ctx = test_context();
    let body = b"{ \"x\" :  1 }".to_vec();
    let (key, payload) = build_request(Some("k".to_string()), &body, &ctx).unwrap();
    assert_eq!(key, "k");
    // The wrapped data is the canonical re-encoding, not the bytes handed in.
    assert_eq!(payload.data.as_deref(), Some(b"{\"x\":1}".as_slice()));
}

#[test]
fn e3_response_data_field_is_extracted() {
    let resp = b"{\"data\": {\"ct\": \"abc\"}, \"other\": 1}".to_vec();
    assert_eq!(
        parse_response(&resp).ok().as_deref(),
        Some(b"{\"ct\":\"abc\"}".as_slice())
    );
    assert!(matches!(
        parse_response(&b"{\"no\": 1}".to_vec()),
        Err(E3Error::SerdeError)
    ));
    assert!(matches!(
        parse_response(&b"nope{".to_vec()),
        Err(E3Error::SerdeError)
    ));
}

#[test]
fn json_escaping() {
    assert_eq!(escape_json_bytes(b"plain-uuid-1234"), b"plain-uuid-1234".to_vec());
    assert_eq!(escape_json_bytes(b"a\"b"), b"a\\\"b".to_vec());
    assert_eq!(escape_json_bytes(b"a\\b"), b"a\\\\b".to_vec());
    assert_eq!(escape_json_bytes(b"a\nb\tc"), b"a\\nb\\tc".to_vec());
    assert_eq!(escape_json_bytes(&[0x01u8]), b"\\u0001".to_vec());
    assert_eq!(escape_json_bytes(&[0x1fu8]), b"\\u001f".to_vec());
}

#[test]
fn e3_uri_is_the_fixed_host_plus_path() {
    assert_eq!(e3_uri("/encrypt"), "https://e3.cages-e3.internal/encrypt");
    assert_eq!(e3_uri("/decrypt"), "https://e3.cages-e3.internal/decrypt");
}

#[test]
fn e3_statuses() {
    assert!(is_success_status(200));
    assert!(is_success_status(299));
    assert!(!is_success_status(199));
    assert!(!is_success_status(300));
    assert!(check_e3_status(201).is_ok());
    assert!(matches!(check_e3_status(404), Err(E3Error::FailedRequest(404))));
    assert!(matches!(check_e3_status(500), Err(E3Error::FailedRequest(500))));
}
