//! Helpers for verifying and classifying SumUp webhook deliveries.
pub mod error;
pub mod events;
pub mod fetch;
pub mod handler;
pub mod properties;
pub mod signature;

pub use error::{WebhookError, WebhookErrorSource};
pub use fetch::WebhookFetchError;
pub use handler::WebhookHandler;
pub use events::{
    parse_event_notification, parse_known_event, CheckoutCreatedEvent, CheckoutExpiredEvent, CheckoutFailedEvent,
    CheckoutPaidEvent, CheckoutUpdatedEvent, EventNotification, MemberCreatedEvent, MemberUpdatedEvent, Object,
    RawEvent, RawObject, UnknownEvent,
};
pub use signature::{
    check_signature, signature_header, signed_payload, timestamp_header, verify_signature, verify_signature_at,
    verify_signature_with_tolerance,
    DEFAULT_TOLERANCE_SECS, SIGNATURE_HEADER, SIGNATURE_VERSION, TIMESTAMP_HEADER,
};
