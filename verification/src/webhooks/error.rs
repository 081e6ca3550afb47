//! Errors of the webhook helpers.
use crate::decimal::{parse_error_text, ParseIntErrorKind};
use serde_json::Error as JsonError;
use vstd::prelude::*;

verus! {

/// The error type of `serde_json`, carried when a webhook body is not JSON of
/// the expected shape.
#[verifier::external_type_specification]
#[verifier::external_body]
pub struct ExJsonError(JsonError);

/// Errors returned by webhook helpers.
#[derive(Debug)]
pub enum WebhookError {
    /// The signature header was missing.
    MissingSignature,
    /// The timestamp header was missing.
    MissingTimestamp,
    /// The signature header was malformed.
    InvalidSignatureHeader,
    /// The timestamp header was not a valid Unix timestamp.
    InvalidTimestampHeader(ParseIntErrorKind),
    /// The signature did not match the payload.
    InvalidSignature,
    /// The webhook timestamp was outside the configured tolerance window.
    SignatureExpired,
    /// The body was not valid JSON for the expected webhook shape.
    InvalidPayload(JsonError),
    /// The event type and object type combination did not match a known schema.
    UnexpectedObjectType { event_type: String, object_type: String },
}

/// The error underneath a webhook error.
#[derive(Debug)]
pub enum WebhookErrorSource<'a> {
    /// Why the timestamp header could not be read.
    TimestampParse(ParseIntErrorKind),
    /// Why the body could not be decoded.
    Payload(&'a JsonError),
}

impl WebhookError {
    /// The error underneath, for the two kinds of failure that carry one.
    pub fn source(&self) -> (r: Option<WebhookErrorSource<'_>>)
        ensures
            match self {
                WebhookError::InvalidTimestampHeader(kind) => r == Some(WebhookErrorSource::TimestampParse(*kind)),
                WebhookError::InvalidPayload(err) => r == Some(WebhookErrorSource::Payload(err)),
                _ => r is None,
            },
    {
        match self {
            WebhookError::InvalidTimestampHeader(kind) => Some(WebhookErrorSource::TimestampParse(*kind)),
            WebhookError::InvalidPayload(err) => Some(WebhookErrorSource::Payload(err)),
            _ => None,
        }
    }

    /// The human-readable description of the error.
    pub fn message(&self) -> (r: String)
        ensures
            match self {
                WebhookError::MissingSignature => r@ == "missing webhook signature header"@,
                WebhookError::MissingTimestamp => r@ == "missing webhook timestamp header"@,
                WebhookError::InvalidSignatureHeader => r@ == "invalid webhook signature header"@,
                WebhookError::InvalidTimestampHeader(kind) => r@ == "invalid webhook timestamp header: "@
                    + parse_error_text(*kind),
                WebhookError::InvalidSignature => r@ == "invalid webhook signature"@,
                WebhookError::SignatureExpired => r@ == "webhook timestamp outside allowed tolerance"@,
                WebhookError::InvalidPayload(_) => exists|detail: Seq<char>|
                    r@ == "invalid webhook payload: "@ + detail,
                WebhookError::UnexpectedObjectType { event_type, object_type } => r@
                    == "unexpected object type '"@ + object_type@ + "' for event '"@ + event_type@
                    + "'"@,
            },
    {
        match self {
            WebhookError::MissingSignature => String::from_str("missing webhook signature header"),
            WebhookError::MissingTimestamp => String::from_str("missing webhook timestamp header"),
            WebhookError::InvalidSignatureHeader => String::from_str("invalid webhook signature header"),
            WebhookError::InvalidTimestampHeader(kind) => {
                let mut r = String::from_str("invalid webhook timestamp header: ");
                r.append(kind.description());
                r
            },
            WebhookError::InvalidSignature => String::from_str("invalid webhook signature"),
            WebhookError::SignatureExpired => String::from_str("webhook timestamp outside allowed tolerance"),
            WebhookError::InvalidPayload(err) => {
                let mut r = String::from_str("invalid webhook payload: ");
                let detail = err.to_string();
                r.append(detail.as_str());
                assert(r@ == "invalid webhook payload: "@ + detail@);
                r
            },
            WebhookError::UnexpectedObjectType { event_type, object_type } => {
                let mut r = String::from_str("unexpected object type '");
                r.append(object_type.as_str());
                r.append("' for event '");
                r.append(event_type.as_str());
                r.append("'");
                r
            },
        }
    }
}

} // verus!
