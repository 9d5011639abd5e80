use grid_rest_api::{AcceptServiceIdParam, Endpoint, QueryServiceId, RequestValidationError};

fn pairs(items: &[(&str, &str)]) -> Vec<(String, String)> {
    items
        .iter()
        .map(|(k, v)| (k.to_string(), v.to_string()))
        .collect()
}

#[test]
fn shared_ledger_with_service_id_is_rejected() {
    let r = AcceptServiceIdParam::from_request(Some(Endpoint::SharedLedger), "service_id=abc");
    assert_eq!(r.unwrap_err(), RequestValidationError::ServiceIdInSharedLedger);
}

#[test]
fn shared_ledger_without_service_id_is_accepted() {
    let r = AcceptServiceIdParam::from_request(Some(Endpoint::SharedLedger), "");
    assert_eq!(r.unwrap().service_id, None);
}

#[test]
fn circuit_scoped_without_service_id_is_rejected() {
    let r = AcceptServiceIdParam::from_request(Some(Endpoint::CircuitScoped), "limit=10");
    assert_eq!(r.unwrap_err(), RequestValidationError::ServiceIdMissing);
}

#[test]
fn circuit_scoped_with_service_id_is_accepted() {
    let r = AcceptServiceIdParam::from_request(Some(Endpoint::CircuitScoped), "service_id=circuit1");
    assert_eq!(r.unwrap().service_id, Some("circuit1".to_string()));
}

#[test]
fn agent_list_in_shared_ledger_mode() {
    let with_id = AcceptServiceIdParam::from_request(Some(Endpoint::SharedLedger), "service_id=abc");
    assert_eq!(with_id.unwrap_err().status_code(), 400);
    let without = AcceptServiceIdParam::from_request(Some(Endpoint::SharedLedger), "");
    assert!(without.is_ok());
}

#[test]
fn record_fetch_in_circuit_scoped_mode() {
    let without = AcceptServiceIdParam::from_request(Some(Endpoint::CircuitScoped), "");
    assert_eq!(without.unwrap_err().status_code(), 400);
    let with_id = AcceptServiceIdParam::from_request(Some(Endpoint::CircuitScoped), "service_id=circuit1");
    assert!(with_id.is_ok());
}

#[test]
fn missing_endpoint_is_a_server_error() {
    let r = AcceptServiceIdParam::from_request(None, "service_id=abc");
    let err = r.unwrap_err();
    assert_eq!(err, RequestValidationError::StateNotFound);
    assert_eq!(err.status_code(), 500);
    assert_eq!(err.message(), "App state not found");
}

#[test]
fn repeated_service_id_is_malformed() {
    let r = AcceptServiceIdParam::from_request(Some(Endpoint::CircuitScoped), "service_id=a&service_id=b");
    let err = r.unwrap_err();
    assert_eq!(err, RequestValidationError::MalformedQuery);
    assert_eq!(err.status_code(), 400);
    assert_eq!(err.message(), "Malformed query param");
}

#[test]
fn service_id_is_percent_decoded() {
    let r = AcceptServiceIdParam::from_request(Some(Endpoint::CircuitScoped), "limit=5&service_id=my%20circuit");
    assert_eq!(r.unwrap().service_id, Some("my circuit".to_string()));
}

#[test]
fn other_keys_are_ignored() {
    let q = QueryServiceId::from_query("offset=3&limit=7").unwrap();
    assert_eq!(q.service_id, None);
}

#[test]
fn from_pairs_finds_the_service_id() {
    let q = QueryServiceId::from_pairs(&pairs(&[("a", "1"), ("service_id", "x"), ("b", "2")])).unwrap();
    assert_eq!(q.service_id, Some("x".to_string()));
}

#[test]
fn from_pairs_rejects_duplicates() {
    let r = QueryServiceId::from_pairs(&pairs(&[("service_id", "x"), ("service_id", "x")]));
    assert_eq!(r.unwrap_err(), RequestValidationError::MalformedQuery);
}

#[test]
fn from_pairs_on_no_pairs() {
    let q = QueryServiceId::from_pairs(&Vec::new()).unwrap();
    assert_eq!(q.service_id, None);
}

#[test]
fn empty_service_id_counts_as_present() {
    let r = AcceptServiceIdParam::from_request(Some(Endpoint::SharedLedger), "service_id=");
    assert_eq!(r.unwrap_err(), RequestValidationError::ServiceIdInSharedLedger);
}

#[test]
fn guard_from_pairs_applies_the_matrix() {
    let id = pairs(&[("service_id", "c")]);
    let none = pairs(&[]);
    assert!(AcceptServiceIdParam::from_pairs(Some(Endpoint::CircuitScoped), &id).is_ok());
    assert!(AcceptServiceIdParam::from_pairs(Some(Endpoint::SharedLedger), &none).is_ok());
    assert_eq!(
        AcceptServiceIdParam::from_pairs(Some(Endpoint::SharedLedger), &id).unwrap_err(),
        RequestValidationError::ServiceIdInSharedLedger
    );
    assert_eq!(
        AcceptServiceIdParam::from_pairs(Some(Endpoint::CircuitScoped), &none).unwrap_err(),
        RequestValidationError::ServiceIdMissing
    );
    assert_eq!(
        AcceptServiceIdParam::from_pairs(None, &id).unwrap_err(),
        RequestValidationError::StateNotFound
    );
}

#[test]
fn check_forwards_the_id() {
    let q = QueryServiceId { service_id: Some("c9".to_string()) };
    let a = AcceptServiceIdParam::check(Endpoint::CircuitScoped, q).unwrap();
    assert_eq!(a.service_id, Some("c9".to_string()));
}

#[test]
fn rejection_messages() {
    assert_eq!(
        RequestValidationError::ServiceIdInSharedLedger.message(),
        "Circuit ID present, but grid is running in sawtooth mode"
    );
    assert_eq!(
        RequestValidationError::ServiceIdMissing.message(),
        "Circuit ID is not present, but grid is running in splinter mode"
    );
}

#[test]
fn endpoint_kind() {
    assert!(Endpoint::SharedLedger.is_shared_ledger());
    assert!(!Endpoint::CircuitScoped.is_shared_ledger());
}

#[test]
fn from_query_reads_a_decoded_value() {
    let q = QueryServiceId::from_query("service_id=a%2Bb+c&limit=1").unwrap();
    assert_eq!(q.service_id, Some("a+b c".to_string()));
}

#[test]
fn from_query_rejects_a_repeated_service_id() {
    let r = QueryServiceId::from_query("service_id=a&x=1&service_id=a");
    assert_eq!(r.unwrap_err(), RequestValidationError::MalformedQuery);
}

#[test]
fn invalid_utf8_is_decoded_not_rejected() {
    let r = AcceptServiceIdParam::from_request(Some(Endpoint::CircuitScoped), "service_id=%FF");
    assert_eq!(r.unwrap().service_id, Some("\u{FFFD}".to_string()));
}

#[test]
fn every_rejection_at_a_configured_server_is_400() {
    for endpoint in [Endpoint::SharedLedger, Endpoint::CircuitScoped] {
        for q in ["", "service_id=a", "service_id=a&service_id=b"] {
            if let Err(e) = AcceptServiceIdParam::from_request(Some(endpoint), q) {
                assert_eq!(e.status_code(), 400);
            }
        }
    }
}
