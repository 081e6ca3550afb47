use hmac::{Hmac, Mac};
use sha2::Sha256;
use std::time::{SystemTime, UNIX_EPOCH};
use sumup::decimal::ParseIntErrorKind;
use sumup::webhooks::{
    signed_payload, verify_signature, verify_signature_at, EventNotification, RawEvent, RawObject,
    WebhookError, WebhookFetchError, WebhookHandler, DEFAULT_TOLERANCE_SECS, SIGNATURE_VERSION,
};
use sumup::Client;

type HmacSha256 = Hmac<Sha256>;

fn signature_for(secret: &str, timestamp: u64, payload: &[u8]) -> String {
    let mut mac = HmacSha256::new_from_slice(secret.as_bytes()).expect("HMAC accepts keys of any size");
    mac.update(&signed_payload(timestamp, payload));
    format!("{}={}", SIGNATURE_VERSION, hex::encode(mac.finalize().into_bytes()))
}

fn test_secret() -> String {
    ["whsec", "test"].join("_")
}

fn current_timestamp() -> u64 {
    SystemTime::now()
        .duration_since(UNIX_EPOCH)
        .expect("system clock should be after unix epoch")
        .as_secs()
}

fn checkout_payload(base_url: &str, event_type: &str) -> Vec<u8> {
    format!(
        r#"{{
                "id":"evt_123",
                "type":"{event_type}",
                "created_at":"2026-04-10T12:00:00Z",
                "object":{{
                    "id":"chk_123",
                    "type":"checkout",
                    "url":"{base_url}/v0.1/checkouts/chk_123"
                }}
            }}"#
    )
    .into_bytes()
}

fn member_payload(base_url: &str, event_type: &str) -> Vec<u8> {
    format!(
        r#"{{
                "id":"evt_789",
                "type":"{event_type}",
                "created_at":"2026-04-10T12:00:00Z",
                "object":{{
                    "id":"mem_123",
                    "type":"member",
                    "url":"{base_url}/v0.1/merchants/MCODE/members/mem_123"
                }}
            }}"#
    )
    .into_bytes()
}

/// Reads a webhook body into the raw event, as the JSON layer around the
/// library does.
fn decode(payload: &[u8]) -> Result<RawEvent, serde_json::Error> {
    let value: serde_json::Value = serde_json::from_slice(payload)?;
    let text = |v: &serde_json::Value, key: &str| v[key].as_str().unwrap_or_default().to_string();
    let object = &value["object"];
    Ok(RawEvent {
        id: text(&value, "id"),
        event_type: text(&value, "type"),
        created_at: text(&value, "created_at"),
        object: RawObject {
            id: text(object, "id"),
            object_type: text(object, "type"),
            url: text(object, "url"),
        },
    })
}

#[test]
fn verifies_valid_signature() {
    let payload = checkout_payload("https://api.sumup.com", "checkout.paid");
    let timestamp = current_timestamp();
    let secret = test_secret();
    let signature = signature_for(&secret, timestamp, &payload);

    let result = verify_signature(secret.as_bytes(), &payload, &signature, &timestamp.to_string());

    assert!(result.is_ok());
}

#[test]
fn rejects_invalid_signature() {
    let payload = checkout_payload("https://api.sumup.com", "checkout.paid");
    let timestamp = current_timestamp();
    let secret = test_secret();

    let result = verify_signature(secret.as_bytes(), &payload, "v1=deadbeef", &timestamp.to_string());

    assert!(matches!(result, Err(WebhookError::InvalidSignature)));
}

#[test]
fn rejects_invalid_signature_header_format() {
    let payload = checkout_payload("https://api.sumup.com", "checkout.paid");
    let timestamp = current_timestamp();
    let secret = test_secret();

    let result = verify_signature(secret.as_bytes(), &payload, "not-hex", &timestamp.to_string());

    assert!(matches!(result, Err(WebhookError::InvalidSignatureHeader)));
}

#[test]
fn rejects_invalid_timestamp_header() {
    let payload = checkout_payload("https://api.sumup.com", "checkout.paid");
    let timestamp = current_timestamp();
    let secret = test_secret();
    let signature = signature_for(&secret, timestamp, &payload);

    let result = verify_signature(secret.as_bytes(), &payload, &signature, "not-a-timestamp");

    assert!(matches!(result, Err(WebhookError::InvalidTimestampHeader(_))));
}

#[test]
fn rejects_expired_timestamp() {
    let payload = checkout_payload("https://api.sumup.com", "checkout.paid");
    let now = current_timestamp();
    let timestamp = now - DEFAULT_TOLERANCE_SECS - 1;
    let secret = test_secret();
    let signature = signature_for(&secret, timestamp, &payload);

    let client = Client::default();
    let result = WebhookHandler::new(&client, secret.as_bytes())
        .with_tolerance(DEFAULT_TOLERANCE_SECS)
        .verify(&payload, &signature, &timestamp.to_string());

    assert!(matches!(result, Err(WebhookError::SignatureExpired)));
}

#[test]
fn parses_checkout_events_into_typed_variants() {
    let client = Client::default();
    let payload = checkout_payload("https://api.sumup.com", "checkout.paid");

    let event = client.parse_event_notification(decode(&payload)).expect("parse checkout event");

    match event {
        EventNotification::CheckoutPaid(event) => {
            assert_eq!(event.id, "evt_123");
            assert_eq!(event.event_type(), "checkout.paid");
            assert_eq!(event.object.id, "chk_123");
        }
        other => panic!("expected checkout.paid event, got {:?}", other),
    }
}

#[test]
fn parses_member_events_into_typed_variants() {
    let client = Client::default();
    let payload = member_payload("https://api.sumup.com", "member.updated");

    let event = client.parse_event_notification(decode(&payload)).expect("parse member event");

    match event {
        EventNotification::MemberUpdated(event) => {
            assert_eq!(event.id, "evt_789");
            assert_eq!(event.event_type(), "member.updated");
            assert_eq!(event.object.id, "mem_123");
        }
        other => panic!("expected member.updated event, got {:?}", other),
    }
}

#[test]
fn rejects_mismatched_object_types_for_typed_events() {
    let client = Client::default();
    let payload = br#"{
            "id":"evt_123",
            "type":"checkout.created",
            "created_at":"2026-04-10T12:00:00Z",
            "object":{
                "id":"mem_123",
                "type":"member",
                "url":"https://api.sumup.com/v0.1/merchants/MCODE/members/mem_123"
            }
        }"#;

    let result = client.parse_event_notification(decode(payload));

    assert!(matches!(
        result,
        Err(WebhookError::UnexpectedObjectType {
            event_type,
            object_type
        }) if event_type == "checkout.created" && object_type == "member"
    ));
}

#[test]
fn falls_back_to_unknown_for_other_events() {
    let client = Client::default();
    let payload = br#"{
            "id":"evt_456",
            "type":"merchant.updated",
            "created_at":"2026-04-10T12:00:00Z",
            "object":{
                "id":"mrc_123",
                "type":"merchant",
                "url":"https://api.sumup.com/v0.1/me"
            }
        }"#;

    let event = client.parse_event_notification(decode(payload)).expect("parse generic event");

    match event {
        EventNotification::Unknown(event) => {
            assert_eq!(event.event_type, "merchant.updated");
            assert_eq!(event.object.object_type, "merchant");
        }
        other => panic!("expected unknown event, got {:?}", other),
    }
}

#[test]
fn verifies_and_parses_event_notifications() {
    let client = Client::default();
    let payload = checkout_payload("https://api.sumup.com", "checkout.failed");
    let timestamp = current_timestamp();
    let secret = test_secret();
    let signature = signature_for(&secret, timestamp, &payload);

    let event = client
        .verify_and_parse_event_notification(
            secret.as_bytes(),
            &payload,
            &signature,
            &timestamp.to_string(),
            decode(&payload),
        )
        .expect("verify and parse webhook");

    assert!(matches!(event, EventNotification::CheckoutFailed(_)));
}

#[test]
fn client_creates_webhook_handler() {
    let client = Client::default();
    let payload = checkout_payload("https://api.sumup.com", "checkout.failed");
    let timestamp = current_timestamp();
    let secret = test_secret();
    let signature = signature_for(&secret, timestamp, &payload);

    let event = client
        .webhook_handler(secret.as_bytes())
        .verify_and_parse(&payload, &signature, &timestamp.to_string(), decode(&payload))
        .expect("verify and parse webhook");

    assert!(matches!(event, EventNotification::CheckoutFailed(_)));
}

#[test]
fn marks_typed_events_as_fetchable() {
    let client = Client::default();
    let created = client
        .parse_event_notification(decode(&checkout_payload("https://api.sumup.com", "checkout.created")))
        .expect("parse checkout.created");
    let updated = client
        .parse_event_notification(decode(&member_payload("https://api.sumup.com", "member.updated")))
        .expect("parse member.updated");
    let paid = client
        .parse_event_notification(decode(&checkout_payload("https://api.sumup.com", "checkout.paid")))
        .expect("parse checkout.paid");
    let unknown = client
        .parse_event_notification(decode(
            br#"{
                    "id":"evt_456",
                    "type":"merchant.updated",
                    "created_at":"2026-04-10T12:00:00Z",
                    "object":{
                        "id":"mrc_123",
                        "type":"merchant",
                        "url":"https://api.sumup.com/v0.1/me"
                    }
                }"#,
        ))
        .expect("parse merchant.updated");

    assert!(created.should_fetch_object());
    assert!(updated.should_fetch_object());
    assert!(paid.should_fetch_object());
    assert!(!unknown.should_fetch_object());
}

// Checks at a fixed instant.

const NOW: u64 = 1_775_822_400;

fn header_for(secret: &str, timestamp: u64, payload: &[u8]) -> String {
    signature_for(secret, timestamp, payload)
}

#[test]
fn signed_payload_has_version_timestamp_and_body() {
    assert_eq!(signed_payload(1712750400, b"{}"), b"v1:1712750400:{}".to_vec());
    assert_eq!(signed_payload(0, b""), b"v1:0:".to_vec());
}

#[test]
fn accepts_within_tolerance_on_both_sides() {
    let secret = test_secret();
    let payload = b"body";
    for timestamp in [NOW - 300, NOW, NOW + 300] {
        let header = header_for(&secret, timestamp, payload);
        let result = verify_signature_at(secret.as_bytes(), payload, &header, &timestamp.to_string(), 300, NOW);
        assert!(result.is_ok(), "timestamp {timestamp}");
    }
    for timestamp in [NOW - 301, NOW + 301] {
        let header = header_for(&secret, timestamp, payload);
        let result = verify_signature_at(secret.as_bytes(), payload, &header, &timestamp.to_string(), 300, NOW);
        assert!(matches!(result, Err(WebhookError::SignatureExpired)), "timestamp {timestamp}");
    }
}

#[test]
fn headers_are_trimmed_and_hex_case_is_ignored() {
    let secret = test_secret();
    let payload = b"body";
    let header = header_for(&secret, NOW, payload);
    let padded = format!(" \t{}\r\n", header.to_uppercase().replacen("V1", "v1", 1));
    let timestamp = format!("  +{} ", NOW);
    let result = verify_signature_at(secret.as_bytes(), payload, &padded, &timestamp, 300, NOW);
    assert!(result.is_ok());
}

#[test]
fn reports_the_first_failing_step() {
    let secret = test_secret();
    let payload = b"body";
    let header = header_for(&secret, NOW, payload);
    let ts = NOW.to_string();
    let check = |sig: &str, ts: &str| verify_signature_at(secret.as_bytes(), payload, sig, ts, 300, NOW);
    assert!(matches!(check("  ", ""), Err(WebhookError::MissingSignature)));
    assert!(matches!(check(&header, " \t"), Err(WebhookError::MissingTimestamp)));
    assert!(matches!(
        check(&header, "12x"),
        Err(WebhookError::InvalidTimestampHeader(ParseIntErrorKind::InvalidDigit))
    ));
    assert!(matches!(
        check(&header, "99999999999999999999"),
        Err(WebhookError::InvalidTimestampHeader(ParseIntErrorKind::PosOverflow))
    ));
    assert!(matches!(check("v1=zz", "1"), Err(WebhookError::SignatureExpired)));
    assert!(matches!(check("v2=00", &ts), Err(WebhookError::InvalidSignatureHeader)));
    assert!(matches!(check("v1=", &ts), Err(WebhookError::InvalidSignatureHeader)));
    assert!(matches!(check("v1=abc", &ts), Err(WebhookError::InvalidSignatureHeader)));
    assert!(matches!(check("v1=zz", &ts), Err(WebhookError::InvalidSignatureHeader)));
    assert!(matches!(check("v1=é0", &ts), Err(WebhookError::InvalidSignatureHeader)));
    assert!(matches!(check("v1=00", &ts), Err(WebhookError::InvalidSignature)));
    assert!(check(&header, &ts).is_ok());
}

#[test]
fn tampered_bodies_and_wrong_secrets_are_rejected() {
    let secret = test_secret();
    let header = header_for(&secret, NOW, b"body");
    let ts = NOW.to_string();
    assert!(matches!(
        verify_signature_at(secret.as_bytes(), b"bodY", &header, &ts, 300, NOW),
        Err(WebhookError::InvalidSignature)
    ));
    assert!(matches!(
        verify_signature_at(b"other", b"body", &header, &ts, 300, NOW),
        Err(WebhookError::InvalidSignature)
    ));
    let other_time = (NOW + 1).to_string();
    assert!(matches!(
        verify_signature_at(secret.as_bytes(), b"body", &header, &other_time, 300, NOW),
        Err(WebhookError::InvalidSignature)
    ));
}

#[test]
fn verify_and_parse_checks_before_classifying() {
    let client = Client::default();
    let payload = checkout_payload("https://api.sumup.com", "checkout.created");
    let handler = client.webhook_handler(test_secret().as_bytes());
    let result = handler.verify_and_parse(&payload, "v1=00", &current_timestamp().to_string(), decode(&payload));
    assert!(matches!(result, Err(WebhookError::InvalidSignature)));
    let invalid = handler.parse(decode(b"not json"));
    assert!(matches!(invalid, Err(WebhookError::InvalidPayload(_))));
}

#[test]
fn every_known_event_type_has_its_variant() {
    let client = Client::default();
    let cases = [
        ("checkout.created", "checkout"),
        ("checkout.updated", "checkout"),
        ("checkout.paid", "checkout"),
        ("checkout.failed", "checkout"),
        ("checkout.expired", "checkout"),
        ("member.created", "member"),
        ("member.updated", "member"),
    ];
    for (event_type, object_type) in cases {
        let raw = RawEvent {
            id: "evt".to_string(),
            event_type: event_type.to_string(),
            created_at: "2026-04-10T12:00:00Z".to_string(),
            object: RawObject { id: "obj".to_string(), object_type: object_type.to_string(), url: "u".to_string() },
        };
        let event = client.parse_event_notification(Ok(raw.clone())).expect("known event");
        assert_eq!(event.event_type(), event_type);
        assert!(event.should_fetch_object());
        let mismatched = RawEvent {
            object: RawObject { object_type: "other".to_string(), ..raw.object.clone() },
            ..raw
        };
        assert!(matches!(
            client.parse_event_notification(Ok(mismatched)),
            Err(WebhookError::UnexpectedObjectType { .. })
        ));
    }
}

#[test]
fn handler_keeps_its_client() {
    let client = Client::default().with_base_url("https://example.test");
    let handler = client.webhook_handler(b"secret");
    assert_eq!(handler.client().base_url(), "https://example.test");
}

#[test]
fn whitespace_around_headers_does_not_change_the_verdict() {
    let secret = test_secret();
    let payload = checkout_payload("https://api.sumup.com", "checkout.paid");
    let timestamp = 1_700_000_000u64;
    let signature = signature_for(&secret, timestamp, &payload);
    let bare = verify_signature_at(
        secret.as_bytes(),
        &payload,
        &signature,
        &timestamp.to_string(),
        DEFAULT_TOLERANCE_SECS,
        timestamp + 10,
    );
    let padded = verify_signature_at(
        secret.as_bytes(),
        &payload,
        &format!(" \t{signature}\r\n"),
        &format!("\u{a0}{timestamp} "),
        DEFAULT_TOLERANCE_SECS,
        timestamp + 10,
    );
    assert!(bare.is_ok());
    assert!(padded.is_ok());
    let bad = verify_signature_at(secret.as_bytes(), &payload, "  v1=00 ", " 12x ", 300, 0);
    assert!(matches!(
        bad,
        Err(WebhookError::InvalidTimestampHeader(ParseIntErrorKind::InvalidDigit))
    ));
}

#[test]
fn rejects_invalid_checkout_object_urls() {
    let client = Client::default();
    let payload = br#"{
        "id":"evt_123",
        "type":"checkout.created",
        "created_at":"2026-04-10T12:00:00Z",
        "object":{
            "id":"chk_123",
            "type":"checkout",
            "url":"://not-a-valid-url"
        }
    }"#;

    let event = client
        .parse_event_notification(decode(payload))
        .expect("parse checkout.created");

    match event {
        EventNotification::CheckoutCreated(event) => {
            let result = event.object.fetch_url::<()>();
            assert!(matches!(result, Err(WebhookFetchError::InvalidObjectUrl(_))));
        }
        other => panic!("expected checkout.created event, got {:?}", other),
    }
}

#[test]
fn accepts_absolute_object_urls_for_fetching() {
    let client = Client::default();
    let payload = member_payload("http://127.0.0.1:8080", "member.created");
    let event = client.parse_event_notification(decode(&payload)).expect("parse member.created");
    match event {
        EventNotification::MemberCreated(event) => {
            let url = event.object.fetch_url::<()>().expect("absolute url");
            assert_eq!(url, "http://127.0.0.1:8080/v0.1/merchants/MCODE/members/mem_123");
        }
        other => panic!("expected member.created event, got {:?}", other),
    }
    match event_object_url_error("relative/path") {
        Some(url) => assert_eq!(url, "relative/path"),
        None => panic!("a relative URL must be refused"),
    }
}

fn event_object_url_error(url: &str) -> Option<String> {
    let object = sumup::webhooks::Object {
        id: "x".to_string(),
        object_type: "checkout".to_string(),
        url: url.to_string(),
    };
    match object.fetch_url::<()>() {
        Err(WebhookFetchError::InvalidObjectUrl(u)) => Some(u),
        _ => None,
    }
}

#[test]
fn widening_the_tolerance_keeps_accepted_deliveries() {
    let secret = test_secret();
    let payload = member_payload("https://api.sumup.com", "member.updated");
    let timestamp = 1_700_000_000u64;
    let signature = signature_for(&secret, timestamp, &payload);
    let ts = timestamp.to_string();
    let now = timestamp + 120;
    let check = |tolerance: u64| verify_signature_at(secret.as_bytes(), &payload, &signature, &ts, tolerance, now);
    assert!(matches!(check(60), Err(WebhookError::SignatureExpired)));
    for tolerance in [120, 121, 300, 86_400, u64::MAX] {
        assert!(check(tolerance).is_ok(), "tolerance {tolerance}");
    }
}

#[test]
fn handler_checks_at_a_given_instant() {
    let client = Client::default();
    let secret = test_secret();
    let payload = checkout_payload("https://api.sumup.com", "checkout.paid");
    let timestamp = 1_700_000_000u64;
    let signature = signature_for(&secret, timestamp, &payload);
    let ts = timestamp.to_string();
    let handler = client.webhook_handler(secret.as_bytes());
    assert!(handler.verify_at(&payload, &signature, &ts, timestamp + 300).is_ok());
    assert!(matches!(
        handler.verify_at(&payload, &signature, &ts, timestamp + 301),
        Err(WebhookError::SignatureExpired)
    ));
    let narrow = client.webhook_handler(secret.as_bytes()).with_tolerance(10);
    assert!(matches!(
        narrow.verify_at(&payload, &signature, &ts, timestamp + 11),
        Err(WebhookError::SignatureExpired)
    ));
    assert_eq!(
        narrow.verify_at(&payload, &signature, &ts, timestamp + 11).is_ok(),
        verify_signature_at(secret.as_bytes(), &payload, &signature, &ts, 10, timestamp + 11).is_ok()
    );
    let event = handler
        .verify_and_parse_at(&payload, &signature, &ts, timestamp - 5, decode(&payload))
        .expect("verify and parse at an instant");
    assert!(matches!(event, EventNotification::CheckoutPaid(_)));
    assert!(matches!(
        handler.verify_and_parse_at(&payload, "v1=deadbeef", &ts, timestamp, decode(&payload)),
        Err(WebhookError::InvalidSignature)
    ));
}

#[test]
fn library_signs_deliveries_as_the_service_does() {
    let secret = test_secret();
    let payload = checkout_payload("https://api.sumup.com", "checkout.failed");
    let timestamp = 1_712_750_400u64;
    let header = sumup::webhooks::signature_header(secret.as_bytes(), &payload, timestamp);
    assert_eq!(header, signature_for(&secret, timestamp, &payload));
    assert_eq!(header.len(), 3 + 64);
    let ts = sumup::webhooks::timestamp_header(timestamp);
    assert_eq!(ts, timestamp.to_string());
    assert!(verify_signature_at(secret.as_bytes(), &payload, &header, &ts, DEFAULT_TOLERANCE_SECS, timestamp).is_ok());
    let client = Client::default();
    let handler = client.webhook_handler(secret.as_bytes());
    let event = handler
        .verify_and_parse_at(&payload, &header, &ts, timestamp + 300, decode(&payload))
        .expect("a signed delivery is accepted within the window");
    assert!(matches!(event, EventNotification::CheckoutFailed(_)));
    assert_eq!(sumup::webhooks::timestamp_header(0), "0");
}
