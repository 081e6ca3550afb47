use sumup::decimal::ParseIntErrorKind;
use sumup::resources::common::{Error, ErrorExtended, ErrorForbidden, Problem};
use sumup::resources::subaccounts::CompatError;
use sumup::webhooks::{WebhookError, WebhookErrorSource, WebhookFetchError};

#[test]
fn parse_error_descriptions_match_std() {
    let cases = [
        ("", ParseIntErrorKind::Empty),
        ("12a", ParseIntErrorKind::InvalidDigit),
        ("99999999999999999999", ParseIntErrorKind::PosOverflow),
    ];
    for (text, kind) in cases {
        let std_text = text.parse::<u64>().unwrap_err().to_string();
        assert_eq!(kind.description(), std_text);
    }
}

#[test]
fn webhook_error_messages() {
    assert_eq!(WebhookError::MissingSignature.message(), "missing webhook signature header");
    assert_eq!(WebhookError::MissingTimestamp.message(), "missing webhook timestamp header");
    assert_eq!(WebhookError::InvalidSignatureHeader.message(), "invalid webhook signature header");
    assert_eq!(WebhookError::InvalidSignature.message(), "invalid webhook signature");
    assert_eq!(
        WebhookError::SignatureExpired.message(),
        "webhook timestamp outside allowed tolerance"
    );
    assert_eq!(
        WebhookError::InvalidTimestampHeader(ParseIntErrorKind::InvalidDigit).message(),
        "invalid webhook timestamp header: invalid digit found in string"
    );
    assert_eq!(
        WebhookError::UnexpectedObjectType {
            event_type: "checkout.created".to_string(),
            object_type: "member".to_string(),
        }
        .message(),
        "unexpected object type 'member' for event 'checkout.created'"
    );
}

#[test]
fn webhook_error_message_for_bad_json_carries_the_parser_text() {
    let err = serde_json::from_str::<serde_json::Value>("{").unwrap_err();
    let expected = format!("invalid webhook payload: {}", err);
    assert_eq!(WebhookError::InvalidPayload(err).message(), expected);
}

#[test]
fn api_errors_show_their_message() {
    let with_message = Error { message: Some("Resource not found".to_string()), error_code: Some("NOT_FOUND".to_string()) };
    assert_eq!(with_message.display_message(), Some("Resource not found"));
    let without = Error { message: None, error_code: Some("NOT_FOUND".to_string()) };
    assert_eq!(without.display_message(), None);
    let extended = ErrorExtended { message: Some("Invalid".to_string()), error_code: None, param: Some("card.name".to_string()) };
    assert_eq!(extended.display_message(), Some("Invalid"));
    let forbidden = ErrorForbidden {
        error_message: Some("request_not_allowed".to_string()),
        error_code: Some("FORBIDDEN".to_string()),
        status_code: Some("403".to_string()),
    };
    assert_eq!(forbidden.display_message(), Some("request_not_allowed"));
    assert_eq!(ErrorForbidden::default().display_message(), None);
    let compat = CompatError { error_code: "E1".to_string(), message: "Operator not found".to_string() };
    assert_eq!(compat.display_text(), "Operator not found");
}

#[test]
fn webhook_errors_expose_their_source() {
    assert!(matches!(
        WebhookError::InvalidTimestampHeader(ParseIntErrorKind::Empty).source(),
        Some(WebhookErrorSource::TimestampParse(ParseIntErrorKind::Empty))
    ));
    let err = serde_json::from_str::<serde_json::Value>("[").unwrap_err();
    let expected = err.to_string();
    match WebhookError::InvalidPayload(err).source() {
        Some(WebhookErrorSource::Payload(inner)) => assert_eq!(inner.to_string(), expected),
        other => panic!("expected the decoder error, got {:?}", other),
    }
    assert!(WebhookError::SignatureExpired.source().is_none());
    assert!(WebhookError::MissingSignature.source().is_none());

    let fetch: WebhookFetchError<String> = WebhookFetchError::from("timeout".to_string());
    assert_eq!(fetch.source(), Some(&"timeout".to_string()));
    let invalid: WebhookFetchError<String> = WebhookFetchError::InvalidObjectUrl("x".to_string());
    assert!(invalid.source().is_none());
}

#[test]
fn problems_show_title_and_detail() {
    let problem = |title: Option<&str>, detail: Option<&str>| Problem {
        type_: "https://developer.sumup.com/problem/not-found".to_string(),
        title: title.map(str::to_string),
        status: Some(404),
        detail: detail.map(str::to_string),
        instance: None,
        additional_properties: std::collections::HashMap::from([("trace_id".to_string(), "\"abc\"".to_string())]),
    };
    assert_eq!(
        problem(Some("Not Found"), Some("No such reader")).display_message().as_deref(),
        Some("Not Found: No such reader")
    );
    assert_eq!(problem(Some("Not Found"), None).display_message().as_deref(), Some("Not Found"));
    assert_eq!(problem(None, Some("No such reader")).display_message().as_deref(), Some("No such reader"));
    assert_eq!(problem(None, None).display_message(), None);
}
