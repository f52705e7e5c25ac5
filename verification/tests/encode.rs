//! Tests of the response encoder: the four request scenarios, the message
//! formats, JSON escaping, and the plaintext fallback.

use sysreport::{BodyKind, Error, Errors, Outcome, Payload};

#[test]
fn scenario_single_probe_success() {
    let mut map = serde_json::Map::new();
    map.insert(
        "uptime".to_string(),
        serde_json::Value::Number(serde_json::Number::from(120u64)),
    );
    let outcome = Outcome::Success(Payload::from_value(serde_json::Value::Object(map)));
    let reply = outcome.encode();
    assert_eq!(reply.status, 200);
    assert_eq!(reply.body, "{\"uptime\":120}");
    assert_eq!(reply.kind, BodyKind::Json);
}

#[test]
fn scenario_one_failure_hides_the_success_value() {
    let failed = Outcome::Failure(Errors::from_error(Error::NotFound("efi".to_string())));
    let succeeded = Outcome::Success(Payload::from_value(serde_json::Value::String(
        "i5-1235U".to_string(),
    )));
    let reply = failed.combine(succeeded).encode();
    assert_eq!(reply.status, 404);
    assert_eq!(reply.body, "[{\"message\":\"not found: efi\"}]");
    assert!(reply.body.contains("efi"));
    assert!(!reply.body.contains("i5-1235U"));
    assert_eq!(reply.kind, BodyKind::Json);
}

#[test]
fn scenario_two_failures_merge_in_order() {
    let a = Outcome::Failure(Errors::from_error(Error::MalformedStructure(
        "cpuinfo".to_string(),
    )));
    let b = Outcome::Failure(Errors::from_error(Error::NotFound("smart".to_string())));
    let combined = a.combine(b);
    match &combined {
        Outcome::Failure(errors) => assert_eq!(errors.errors().len(), 2),
        Outcome::Success(_) => panic!("two failures must combine to a failure"),
    }
    let reply = combined.encode();
    assert_eq!(reply.status, 422);
    assert_eq!(
        reply.body,
        "[{\"message\":\"not a JSON object: cpuinfo\"},{\"message\":\"not found: smart\"}]"
    );
}

#[test]
fn scenario_unserializable_payload_falls_back_to_plaintext() {
    let outcome = Outcome::Success(Payload::unserializable());
    let reply = outcome.encode();
    assert_eq!(reply.status, 500);
    assert_eq!(reply.body, "Cannot serialize message.");
    assert_eq!(reply.kind, BodyKind::Plain);
}

#[test]
fn empty_success_encodes_as_null() {
    let reply = Outcome::Success(Payload::empty()).encode();
    assert_eq!(reply.status, 200);
    assert_eq!(reply.body, "null");
    assert_eq!(reply.kind, BodyKind::Json);
}

#[test]
fn messages_name_their_context() {
    assert_eq!(
        Error::NotFound("efi".to_string()).message(),
        "not found: efi"
    );
    assert_eq!(
        Error::IoFailure("permission denied".to_string()).message(),
        "i/o failure: permission denied"
    );
    assert_eq!(
        Error::MalformedStructure("cpuinfo".to_string()).message(),
        "not a JSON object: cpuinfo"
    );
    assert_eq!(
        Error::EncodingFailure("recursion limit".to_string()).message(),
        "encoding failure: recursion limit"
    );
}

#[test]
fn error_bodies_escape_the_message() {
    let tricky = Error::NotFound("a \"quoted\\path\"\n".to_string());
    let reply = Outcome::Failure(Errors::from_error(tricky)).encode();
    assert_eq!(
        reply.body,
        "[{\"message\":\"not found: a \\\"quoted\\\\path\\\"\\n\"}]"
    );
    let parsed: serde_json::Value =
        serde_json::from_str(&reply.body).expect("an error body is valid JSON");
    assert_eq!(
        parsed[0]["message"],
        serde_json::Value::String("not found: a \"quoted\\path\"\n".to_string())
    );
}

#[test]
fn every_outcome_yields_exactly_one_reply() {
    let outcomes = vec![
        Outcome::Success(Payload::empty()),
        Outcome::Success(Payload::from_value(serde_json::Value::Null)),
        Outcome::Success(Payload::unserializable()),
        Outcome::Failure(Errors::from_error(Error::EncodingFailure("p".to_string()))),
    ];
    for outcome in outcomes {
        let reply = outcome.encode();
        assert!(reply.status == 200 || reply.status == 404 || reply.status == 422
            || reply.status == 500);
        assert!(!reply.body.is_empty());
    }
}
