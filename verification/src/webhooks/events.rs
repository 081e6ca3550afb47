//! Webhook notifications and their classification into typed events.
use super::error::WebhookError;
use vstd::prelude::*;

verus! {

/// Object reference of a webhook body, as the JSON carries it.
#[derive(Debug, Clone, PartialEq, Eq)]
pub struct RawObject {
    pub id: String,
    /// The JSON field `type`.
    pub object_type: String,
    pub url: String,
}

/// A webhook body, as the JSON carries it.
#[derive(Debug, Clone, PartialEq, Eq)]
pub struct RawEvent {
    pub id: String,
    /// The JSON field `type`.
    pub event_type: String,
    /// Event creation timestamp, as the JSON carries it.
    pub created_at: String,
    pub object: RawObject,
}

/// Generic webhook object reference.
#[derive(Debug, Clone, PartialEq, Eq)]
pub struct Object {
    /// Resource identifier.
    pub id: String,
    /// Resource type emitted by the webhook service.
    pub object_type: String,
    /// Canonical API URL for the resource.
    pub url: String,
}

/// The object reference that a raw object becomes.
pub open spec fn object_of(raw: RawObject) -> Object {
    Object { id: raw.id, object_type: raw.object_type, url: raw.url }
}

impl From<RawObject> for Object {
    fn from(value: RawObject) -> (r: Self) {
        Object { id: value.id, object_type: value.object_type, url: value.url }
    }
}

impl vstd::std_specs::convert::FromSpecImpl<RawObject> for Object {
    open spec fn obeys_from_spec() -> bool {
        true
    }

    open spec fn from_spec(v: RawObject) -> Self {
        object_of(v)
    }
}

/// Event type used when the SDK does not yet know the webhook schema.
#[derive(Debug, Clone)]
pub struct UnknownEvent {
    /// Event identifier.
    pub id: String,
    /// Raw event type emitted by the webhook service.
    pub event_type: String,
    /// Event creation timestamp.
    pub created_at: String,
    /// Generic object reference carried by the webhook.
    pub object: Object,
}

impl UnknownEvent {
    /// Keeps every field of the raw event.
    pub fn from_raw(event: RawEvent) -> (r: Self)
        ensures
            r == (UnknownEvent {
                id: event.id,
                event_type: event.event_type,
                created_at: event.created_at,
                object: object_of(event.object),
            }),
    {
        UnknownEvent {
            id: event.id,
            event_type: event.event_type,
            created_at: event.created_at,
            object: Object::from(event.object),
        }
    }
}

/// The error for an event whose object type is not the one its event type
/// calls for.
pub open spec fn mismatch_of(raw: RawEvent) -> WebhookError {
    WebhookError::UnexpectedObjectType { event_type: raw.event_type, object_type: raw.object.object_type }
}

/// A `checkout.created` webhook event.
#[derive(Debug, Clone)]
pub struct CheckoutCreatedEvent {
    /// Event identifier.
    pub id: String,
    /// Event creation timestamp.
    pub created_at: String,
    /// Checkout reference carried by the webhook.
    pub object: Object,
}

impl CheckoutCreatedEvent {
    /// Accepts the raw event when its object is a `checkout`.
    fn from_raw(event: RawEvent) -> (r: Result<Self, WebhookError>)
        ensures
            event.object.object_type@ == "checkout"@ ==> r == Ok::<Self, WebhookError>(
                CheckoutCreatedEvent { id: event.id, created_at: event.created_at, object: object_of(event.object) },
            ),
            event.object.object_type@ != "checkout"@ ==> r == Err::<Self, WebhookError>(mismatch_of(event)),
    {
        if event.object.object_type != String::from_str("checkout") {
            return Err(WebhookError::UnexpectedObjectType {
                event_type: event.event_type,
                object_type: event.object.object_type,
            });
        }
        Ok(CheckoutCreatedEvent { id: event.id, created_at: event.created_at, object: Object::from(event.object) })
    }

    /// Returns the webhook event type.
    pub fn event_type(&self) -> (r: &'static str)
        ensures
            r@ == "checkout.created"@,
    {
        "checkout.created"
    }
}

/// A `checkout.updated` webhook event.
#[derive(Debug, Clone)]
pub struct CheckoutUpdatedEvent {
    /// Event identifier.
    pub id: String,
    /// Event creation timestamp.
    pub created_at: String,
    /// Checkout reference carried by the webhook.
    pub object: Object,
}

impl CheckoutUpdatedEvent {
    /// Accepts the raw event when its object is a `checkout`.
    fn from_raw(event: RawEvent) -> (r: Result<Self, WebhookError>)
        ensures
            event.object.object_type@ == "checkout"@ ==> r == Ok::<Self, WebhookError>(
                CheckoutUpdatedEvent { id: event.id, created_at: event.created_at, object: object_of(event.object) },
            ),
            event.object.object_type@ != "checkout"@ ==> r == Err::<Self, WebhookError>(mismatch_of(event)),
    {
        if event.object.object_type != String::from_str("checkout") {
            return Err(WebhookError::UnexpectedObjectType {
                event_type: event.event_type,
                object_type: event.object.object_type,
            });
        }
        Ok(CheckoutUpdatedEvent { id: event.id, created_at: event.created_at, object: Object::from(event.object) })
    }

    /// Returns the webhook event type.
    pub fn event_type(&self) -> (r: &'static str)
        ensures
            r@ == "checkout.updated"@,
    {
        "checkout.updated"
    }
}

/// A `checkout.paid` webhook event.
#[derive(Debug, Clone)]
pub struct CheckoutPaidEvent {
    /// Event identifier.
    pub id: String,
    /// Event creation timestamp.
    pub created_at: String,
    /// Checkout reference carried by the webhook.
    pub object: Object,
}

impl CheckoutPaidEvent {
    /// Accepts the raw event when its object is a `checkout`.
    fn from_raw(event: RawEvent) -> (r: Result<Self, WebhookError>)
        ensures
            event.object.object_type@ == "checkout"@ ==> r == Ok::<Self, WebhookError>(
                CheckoutPaidEvent { id: event.id, created_at: event.created_at, object: object_of(event.object) },
            ),
            event.object.object_type@ != "checkout"@ ==> r == Err::<Self, WebhookError>(mismatch_of(event)),
    {
        if event.object.object_type != String::from_str("checkout") {
            return Err(WebhookError::UnexpectedObjectType {
                event_type: event.event_type,
                object_type: event.object.object_type,
            });
        }
        Ok(CheckoutPaidEvent { id: event.id, created_at: event.created_at, object: Object::from(event.object) })
    }

    /// Returns the webhook event type.
    pub fn event_type(&self) -> (r: &'static str)
        ensures
            r@ == "checkout.paid"@,
    {
        "checkout.paid"
    }
}

/// A `checkout.failed` webhook event.
#[derive(Debug, Clone)]
pub struct CheckoutFailedEvent {
    /// Event identifier.
    pub id: String,
    /// Event creation timestamp.
    pub created_at: String,
    /// Checkout reference carried by the webhook.
    pub object: Object,
}

impl CheckoutFailedEvent {
    /// Accepts the raw event when its object is a `checkout`.
    fn from_raw(event: RawEvent) -> (r: Result<Self, WebhookError>)
        ensures
            event.object.object_type@ == "checkout"@ ==> r == Ok::<Self, WebhookError>(
                CheckoutFailedEvent { id: event.id, created_at: event.created_at, object: object_of(event.object) },
            ),
            event.object.object_type@ != "checkout"@ ==> r == Err::<Self, WebhookError>(mismatch_of(event)),
    {
        if event.object.object_type != String::from_str("checkout") {
            return Err(WebhookError::UnexpectedObjectType {
                event_type: event.event_type,
                object_type: event.object.object_type,
            });
        }
        Ok(CheckoutFailedEvent { id: event.id, created_at: event.created_at, object: Object::from(event.object) })
    }

    /// Returns the webhook event type.
    pub fn event_type(&self) -> (r: &'static str)
        ensures
            r@ == "checkout.failed"@,
    {
        "checkout.failed"
    }
}

/// A `checkout.expired` webhook event.
#[derive(Debug, Clone)]
pub struct CheckoutExpiredEvent {
    /// Event identifier.
    pub id: String,
    /// Event creation timestamp.
    pub created_at: String,
    /// Checkout reference carried by the webhook.
    pub object: Object,
}

impl CheckoutExpiredEvent {
    /// Accepts the raw event when its object is a `checkout`.
    fn from_raw(event: RawEvent) -> (r: Result<Self, WebhookError>)
        ensures
            event.object.object_type@ == "checkout"@ ==> r == Ok::<Self, WebhookError>(
                CheckoutExpiredEvent { id: event.id, created_at: event.created_at, object: object_of(event.object) },
            ),
            event.object.object_type@ != "checkout"@ ==> r == Err::<Self, WebhookError>(mismatch_of(event)),
    {
        if event.object.object_type != String::from_str("checkout") {
            return Err(WebhookError::UnexpectedObjectType {
                event_type: event.event_type,
                object_type: event.object.object_type,
            });
        }
        Ok(CheckoutExpiredEvent { id: event.id, created_at: event.created_at, object: Object::from(event.object) })
    }

    /// Returns the webhook event type.
    pub fn event_type(&self) -> (r: &'static str)
        ensures
            r@ == "checkout.expired"@,
    {
        "checkout.expired"
    }
}

/// A `member.created` webhook event.
#[derive(Debug, Clone)]
pub struct MemberCreatedEvent {
    /// Event identifier.
    pub id: String,
    /// Event creation timestamp.
    pub created_at: String,
    /// Member reference carried by the webhook.
    pub object: Object,
}

impl MemberCreatedEvent {
    /// Accepts the raw event when its object is a `member`.
    fn from_raw(event: RawEvent) -> (r: Result<Self, WebhookError>)
        ensures
            event.object.object_type@ == "member"@ ==> r == Ok::<Self, WebhookError>(
                MemberCreatedEvent { id: event.id, created_at: event.created_at, object: object_of(event.object) },
            ),
            event.object.object_type@ != "member"@ ==> r == Err::<Self, WebhookError>(mismatch_of(event)),
    {
        if event.object.object_type != String::from_str("member") {
            return Err(WebhookError::UnexpectedObjectType {
                event_type: event.event_type,
                object_type: event.object.object_type,
            });
        }
        Ok(MemberCreatedEvent { id: event.id, created_at: event.created_at, object: Object::from(event.object) })
    }

    /// Returns the webhook event type.
    pub fn event_type(&self) -> (r: &'static str)
        ensures
            r@ == "member.created"@,
    {
        "member.created"
    }
}

/// A `member.updated` webhook event.
#[derive(Debug, Clone)]
pub struct MemberUpdatedEvent {
    /// Event identifier.
    pub id: String,
    /// Event creation timestamp.
    pub created_at: String,
    /// Member reference carried by the webhook.
    pub object: Object,
}

impl MemberUpdatedEvent {
    /// Accepts the raw event when its object is a `member`.
    fn from_raw(event: RawEvent) -> (r: Result<Self, WebhookError>)
        ensures
            event.object.object_type@ == "member"@ ==> r == Ok::<Self, WebhookError>(
                MemberUpdatedEvent { id: event.id, created_at: event.created_at, object: object_of(event.object) },
            ),
            event.object.object_type@ != "member"@ ==> r == Err::<Self, WebhookError>(mismatch_of(event)),
    {
        if event.object.object_type != String::from_str("member") {
            return Err(WebhookError::UnexpectedObjectType {
                event_type: event.event_type,
                object_type: event.object.object_type,
            });
        }
        Ok(MemberUpdatedEvent { id: event.id, created_at: event.created_at, object: Object::from(event.object) })
    }

    /// Returns the webhook event type.
    pub fn event_type(&self) -> (r: &'static str)
        ensures
            r@ == "member.updated"@,
    {
        "member.updated"
    }
}

/// Typed webhook notifications known by the SDK.
#[derive(Debug, Clone)]
pub enum EventNotification {
    CheckoutCreated(CheckoutCreatedEvent),
    CheckoutUpdated(CheckoutUpdatedEvent),
    CheckoutPaid(CheckoutPaidEvent),
    CheckoutFailed(CheckoutFailedEvent),
    CheckoutExpired(CheckoutExpiredEvent),
    MemberCreated(MemberCreatedEvent),
    MemberUpdated(MemberUpdatedEvent),
    Unknown(UnknownEvent),
}

/// The event type that a notification reports.
pub open spec fn notification_event_type(n: EventNotification) -> Seq<char> {
    match n {
        EventNotification::CheckoutCreated(_) => "checkout.created"@,
        EventNotification::CheckoutUpdated(_) => "checkout.updated"@,
        EventNotification::CheckoutPaid(_) => "checkout.paid"@,
        EventNotification::CheckoutFailed(_) => "checkout.failed"@,
        EventNotification::CheckoutExpired(_) => "checkout.expired"@,
        EventNotification::MemberCreated(_) => "member.created"@,
        EventNotification::MemberUpdated(_) => "member.updated"@,
        EventNotification::Unknown(e) => e.event_type@,
    }
}

/// The object reference that a notification carries.
pub open spec fn notification_object(n: EventNotification) -> Object {
    match n {
        EventNotification::CheckoutCreated(e) => e.object,
        EventNotification::CheckoutUpdated(e) => e.object,
        EventNotification::CheckoutPaid(e) => e.object,
        EventNotification::CheckoutFailed(e) => e.object,
        EventNotification::CheckoutExpired(e) => e.object,
        EventNotification::MemberCreated(e) => e.object,
        EventNotification::MemberUpdated(e) => e.object,
        EventNotification::Unknown(e) => e.object,
    }
}

/// The identifier of the event behind a notification.
pub open spec fn notification_id(n: EventNotification) -> String {
    match n {
        EventNotification::CheckoutCreated(e) => e.id,
        EventNotification::CheckoutUpdated(e) => e.id,
        EventNotification::CheckoutPaid(e) => e.id,
        EventNotification::CheckoutFailed(e) => e.id,
        EventNotification::CheckoutExpired(e) => e.id,
        EventNotification::MemberCreated(e) => e.id,
        EventNotification::MemberUpdated(e) => e.id,
        EventNotification::Unknown(e) => e.id,
    }
}

/// The creation timestamp of the event behind a notification.
pub open spec fn notification_created_at(n: EventNotification) -> String {
    match n {
        EventNotification::CheckoutCreated(e) => e.created_at,
        EventNotification::CheckoutUpdated(e) => e.created_at,
        EventNotification::CheckoutPaid(e) => e.created_at,
        EventNotification::CheckoutFailed(e) => e.created_at,
        EventNotification::CheckoutExpired(e) => e.created_at,
        EventNotification::MemberCreated(e) => e.created_at,
        EventNotification::MemberUpdated(e) => e.created_at,
        EventNotification::Unknown(e) => e.created_at,
    }
}

/// The object type that a known event type calls for, or `None` for an
/// event type the SDK does not know.
pub open spec fn expected_object_type(event_type: Seq<char>) -> Option<Seq<char>> {
    if event_type == "checkout.created"@ {
        Some("checkout"@)
    } else if event_type == "checkout.updated"@ {
        Some("checkout"@)
    } else if event_type == "checkout.paid"@ {
        Some("checkout"@)
    } else if event_type == "checkout.failed"@ {
        Some("checkout"@)
    } else if event_type == "checkout.expired"@ {
        Some("checkout"@)
    } else if event_type == "member.created"@ {
        Some("member"@)
    } else if event_type == "member.updated"@ {
        Some("member"@)
    } else {
        None
    }
}

/// The notification that a raw event becomes: a known event type gives its
/// typed variant when the object type is the expected one and an
/// `UnexpectedObjectType` error otherwise; any other event type gives an
/// `Unknown` notification that keeps every field.
pub open spec fn classify_event(raw: RawEvent) -> Result<EventNotification, WebhookError> {
    let t = raw.event_type@;
    if t == "checkout.created"@ {
        if raw.object.object_type@ == "checkout"@ {
            Ok(EventNotification::CheckoutCreated(CheckoutCreatedEvent { id: raw.id, created_at: raw.created_at, object: object_of(raw.object) }))
        } else {
            Err(mismatch_of(raw))
        }
    } else if t == "checkout.updated"@ {
        if raw.object.object_type@ == "checkout"@ {
            Ok(EventNotification::CheckoutUpdated(CheckoutUpdatedEvent { id: raw.id, created_at: raw.created_at, object: object_of(raw.object) }))
        } else {
            Err(mismatch_of(raw))
        }
    } else if t == "checkout.paid"@ {
        if raw.object.object_type@ == "checkout"@ {
            Ok(EventNotification::CheckoutPaid(CheckoutPaidEvent { id: raw.id, created_at: raw.created_at, object: object_of(raw.object) }))
        } else {
            Err(mismatch_of(raw))
        }
    } else if t == "checkout.failed"@ {
        if raw.object.object_type@ == "checkout"@ {
            Ok(EventNotification::CheckoutFailed(CheckoutFailedEvent { id: raw.id, created_at: raw.created_at, object: object_of(raw.object) }))
        } else {
            Err(mismatch_of(raw))
        }
    } else if t == "checkout.expired"@ {
        if raw.object.object_type@ == "checkout"@ {
            Ok(EventNotification::CheckoutExpired(CheckoutExpiredEvent { id: raw.id, created_at: raw.created_at, object: object_of(raw.object) }))
        } else {
            Err(mismatch_of(raw))
        }
    } else if t == "member.created"@ {
        if raw.object.object_type@ == "member"@ {
            Ok(EventNotification::MemberCreated(MemberCreatedEvent { id: raw.id, created_at: raw.created_at, object: object_of(raw.object) }))
        } else {
            Err(mismatch_of(raw))
        }
    } else if t == "member.updated"@ {
        if raw.object.object_type@ == "member"@ {
            Ok(EventNotification::MemberUpdated(MemberUpdatedEvent { id: raw.id, created_at: raw.created_at, object: object_of(raw.object) }))
        } else {
            Err(mismatch_of(raw))
        }
    } else {
        Ok(EventNotification::Unknown(UnknownEvent {
            id: raw.id,
            event_type: raw.event_type,
            created_at: raw.created_at,
            object: object_of(raw.object),
        }))
    }
}

impl EventNotification {
    /// Returns the webhook event type.
    pub fn event_type(&self) -> (r: &str)
        ensures
            r@ == notification_event_type(*self),
    {
        match self {
            EventNotification::CheckoutCreated(event) => event.event_type(),
            EventNotification::CheckoutUpdated(event) => event.event_type(),
            EventNotification::CheckoutPaid(event) => event.event_type(),
            EventNotification::CheckoutFailed(event) => event.event_type(),
            EventNotification::CheckoutExpired(event) => event.event_type(),
            EventNotification::MemberCreated(event) => event.event_type(),
            EventNotification::MemberUpdated(event) => event.event_type(),
            EventNotification::Unknown(event) => event.event_type.as_str(),
        }
    }

    /// Returns `true` when resolving the thin notification into the full
    /// API resource is usually the most useful next step.
    pub fn should_fetch_object(&self) -> (r: bool)
        ensures
            r == !(*self is Unknown),
    {
        match self {
            EventNotification::Unknown(_) => false,
            _ => true,
        }
    }
}

/// Classifies a raw webhook event into a typed notification.
pub fn parse_known_event(event: RawEvent) -> (r: Result<EventNotification, WebhookError>)
    ensures
        r == classify_event(event),
{
    if event.event_type == String::from_str("checkout.created") {
        match CheckoutCreatedEvent::from_raw(event) {
            Ok(e) => Ok(EventNotification::CheckoutCreated(e)),
            Err(err) => Err(err),
        }
    } else if event.event_type == String::from_str("checkout.updated") {
        match CheckoutUpdatedEvent::from_raw(event) {
            Ok(e) => Ok(EventNotification::CheckoutUpdated(e)),
            Err(err) => Err(err),
        }
    } else if event.event_type == String::from_str("checkout.paid") {
        match CheckoutPaidEvent::from_raw(event) {
            Ok(e) => Ok(EventNotification::CheckoutPaid(e)),
            Err(err) => Err(err),
        }
    } else if event.event_type == String::from_str("checkout.failed") {
        match CheckoutFailedEvent::from_raw(event) {
            Ok(e) => Ok(EventNotification::CheckoutFailed(e)),
            Err(err) => Err(err),
        }
    } else if event.event_type == String::from_str("checkout.expired") {
        match CheckoutExpiredEvent::from_raw(event) {
            Ok(e) => Ok(EventNotification::CheckoutExpired(e)),
            Err(err) => Err(err),
        }
    } else if event.event_type == String::from_str("member.created") {
        match MemberCreatedEvent::from_raw(event) {
            Ok(e) => Ok(EventNotification::MemberCreated(e)),
            Err(err) => Err(err),
        }
    } else if event.event_type == String::from_str("member.updated") {
        match MemberUpdatedEvent::from_raw(event) {
            Ok(e) => Ok(EventNotification::MemberUpdated(e)),
            Err(err) => Err(err),
        }
    } else {
        Ok(EventNotification::Unknown(UnknownEvent::from_raw(event)))
    }
}

/// The notification that a decoded webhook body gives; a body that could
/// not be decoded gives `InvalidPayload` with the decoder's error.
pub open spec fn decoded_notification(decoded: Result<RawEvent, serde_json::Error>) -> Result<EventNotification, WebhookError> {
    match decoded {
        Ok(raw) => classify_event(raw),
        Err(e) => Err(WebhookError::InvalidPayload(e)),
    }
}

/// Classifies a decoded webhook body (the JSON body read into a `RawEvent`).
pub fn parse_event_notification(decoded: Result<RawEvent, serde_json::Error>) -> (r: Result<EventNotification, WebhookError>)
    ensures
        r == decoded_notification(decoded),
{
    match decoded {
        Ok(raw) => parse_known_event(raw),
        Err(e) => Err(WebhookError::InvalidPayload(e)),
    }
}

} // verus!
