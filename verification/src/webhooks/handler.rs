//! A webhook helper bound to a client and a signing secret.
use super::error::WebhookError;
use super::events::{decoded_notification, parse_event_notification, EventNotification, RawEvent};
use super::signature::{
    abs_diff, check_signature, header_tag, signature_header_for, signed_payload_spec, check_signature_at_clock, verify_signature_at, verify_signature_with_tolerance,
    DEFAULT_TOLERANCE_SECS,
};
use crate::client::Client;
use crate::decimal::decimal_chars;
use crate::mac::hmac_sha256;
use crate::text::trim;
use vstd::prelude::*;

verus! {

/// The outcome of verifying a delivery against a clock reading (seconds
/// since the Unix epoch, or `None` for a clock before the epoch) and then
/// classifying its decoded body: a failed verification gives its error, and
/// the body is classified only once the signature holds.
pub open spec fn verified_notification(
    secret: Seq<u8>,
    payload: Seq<u8>,
    signature_header: Seq<char>,
    timestamp_header: Seq<char>,
    tolerance: u64,
    clock: Option<u64>,
    decoded: Result<RawEvent, serde_json::Error>,
) -> Result<EventNotification, WebhookError> {
    match check_signature_at_clock(secret, payload, signature_header, timestamp_header, tolerance, clock) {
        Err(e) => Err(e),
        Ok(()) => decoded_notification(decoded),
    }
}

/// Reusable webhook helper bound to a client and signing secret.
#[derive(Debug, Clone)]
pub struct WebhookHandler<'a> {
    client: &'a Client,
    secret: Vec<u8>,
    tolerance_secs: u64,
}

impl<'a> WebhookHandler<'a> {
    /// The client the handler is bound to.
    pub closed spec fn bound_client(&self) -> &'a Client {
        self.client
    }

    /// The signing secret.
    pub closed spec fn signing_secret(&self) -> Seq<u8> {
        self.secret@
    }

    /// The allowed clock skew, in seconds.
    pub closed spec fn tolerance(&self) -> u64 {
        self.tolerance_secs
    }

    /// Creates a webhook handler bound to a client and signing secret, with
    /// the default tolerance.
    pub fn new(client: &'a Client, secret: &[u8]) -> (r: Self)
        ensures
            r.bound_client() == client,
            r.signing_secret() == secret@,
            r.tolerance() == DEFAULT_TOLERANCE_SECS,
    {
        WebhookHandler { client, secret: vstd::slice::slice_to_vec(secret), tolerance_secs: DEFAULT_TOLERANCE_SECS }
    }

    /// Returns the client bound to this handler.
    pub fn client(&self) -> (r: &'a Client)
        ensures
            r == self.bound_client(),
    {
        self.client
    }

    /// Overrides the allowed clock skew, in seconds, for webhook signature
    /// verification.
    pub fn with_tolerance(self, tolerance_secs: u64) -> (r: Self)
        ensures
            r.bound_client() == self.bound_client(),
            r.signing_secret() == self.signing_secret(),
            r.tolerance() == tolerance_secs,
    {
        WebhookHandler { client: self.client, secret: self.secret, tolerance_secs }
    }

    /// Verifies a webhook payload signature against the raw body, with the
    /// handler's secret and tolerance, as if the clock read `now` (seconds
    /// since the Unix epoch).
    pub fn verify_at(&self, payload: &[u8], signature_header: &str, timestamp_header: &str, now: u64) -> (r: Result<(), WebhookError>)
        ensures
            r == check_signature(self.signing_secret(), payload@, signature_header@, timestamp_header@, self.tolerance(), now),
            header_tag(trim(signature_header@)) matches Some(tag) && tag.len() != 32 ==> r is Err,
            forall|t: u64|
                #![trigger signature_header_for(self.signing_secret(), payload@, t)]
                signature_header@ == signature_header_for(self.signing_secret(), payload@, t) && timestamp_header@
                    == decimal_chars(t as nat) && abs_diff(now, t) <= self.tolerance() && hmac_sha256(
                    self.signing_secret(),
                    signed_payload_spec(t, payload@),
                ).len() > 0 ==> r is Ok,
    {
        verify_signature_at(self.secret.as_slice(), payload, signature_header, timestamp_header, self.tolerance_secs, now)
    }

    /// Verifies a webhook payload signature against the raw body, with the
    /// handler's secret and tolerance and the system clock.
    pub fn verify(&self, payload: &[u8], signature_header: &str, timestamp_header: &str) -> (r: Result<(), WebhookError>)
        ensures
            exists|clock: Option<u64>|
                r == #[trigger] check_signature_at_clock(
                    self.signing_secret(),
                    payload@,
                    signature_header@,
                    timestamp_header@,
                    self.tolerance(),
                    clock,
                ),
            header_tag(trim(signature_header@)) matches Some(tag) && tag.len() != 32 ==> r is Err,
    {
        let secret = self.secret.as_slice();
        let r = verify_signature_with_tolerance(secret, payload, signature_header, timestamp_header, self.tolerance_secs);
        proof {
            let clock = choose|clock: Option<u64>|
                r == #[trigger] check_signature_at_clock(
                    secret@,
                    payload@,
                    signature_header@,
                    timestamp_header@,
                    self.tolerance_secs,
                    clock,
                );
            assert(secret@ == self.signing_secret());
            assert(r == check_signature_at_clock(
                self.signing_secret(),
                payload@,
                signature_header@,
                timestamp_header@,
                self.tolerance(),
                clock,
            ));
        }
        r
    }

    /// Classifies a decoded webhook body into a typed event.
    pub fn parse(&self, decoded: Result<RawEvent, serde_json::Error>) -> (r: Result<EventNotification, WebhookError>)
        ensures
            r == decoded_notification(decoded),
    {
        parse_event_notification(decoded)
    }

    /// Verifies a webhook signature as if the clock read `now`, then
    /// classifies the decoded body.
    pub fn verify_and_parse_at(
        &self,
        payload: &[u8],
        signature_header: &str,
        timestamp_header: &str,
        now: u64,
        decoded: Result<RawEvent, serde_json::Error>,
    ) -> (r: Result<EventNotification, WebhookError>)
        ensures
            r == verified_notification(
                self.signing_secret(),
                payload@,
                signature_header@,
                timestamp_header@,
                self.tolerance(),
                Some(now),
                decoded,
            ),
            header_tag(trim(signature_header@)) matches Some(tag) && tag.len() != 32 ==> r is Err,
            forall|t: u64|
                #![trigger signature_header_for(self.signing_secret(), payload@, t)]
                signature_header@ == signature_header_for(self.signing_secret(), payload@, t) && timestamp_header@
                    == decimal_chars(t as nat) && abs_diff(now, t) <= self.tolerance() && hmac_sha256(
                    self.signing_secret(),
                    signed_payload_spec(t, payload@),
                ).len() > 0 ==> r == decoded_notification(decoded),
    {
        match self.verify_at(payload, signature_header, timestamp_header, now) {
            Err(e) => Err(e),
            Ok(()) => self.parse(decoded),
        }
    }

    /// Verifies a webhook signature with the system clock and then classifies
    /// the decoded body.
    pub fn verify_and_parse(
        &self,
        payload: &[u8],
        signature_header: &str,
        timestamp_header: &str,
        decoded: Result<RawEvent, serde_json::Error>,
    ) -> (r: Result<EventNotification, WebhookError>)
        ensures
            exists|clock: Option<u64>|
                r == #[trigger] verified_notification(
                    self.signing_secret(),
                    payload@,
                    signature_header@,
                    timestamp_header@,
                    self.tolerance(),
                    clock,
                    decoded,
                ),
            header_tag(trim(signature_header@)) matches Some(tag) && tag.len() != 32 ==> r is Err,
    {
        let checked = self.verify(payload, signature_header, timestamp_header);
        let ghost clock = choose|clock: Option<u64>|
            checked == #[trigger] check_signature_at_clock(
                self.signing_secret(),
                payload@,
                signature_header@,
                timestamp_header@,
                self.tolerance(),
                clock,
            );
        let r = match checked {
            Err(e) => Err(e),
            Ok(()) => self.parse(decoded),
        };
        assert(r == verified_notification(
            self.signing_secret(),
            payload@,
            signature_header@,
            timestamp_header@,
            self.tolerance(),
            clock,
            decoded,
        ));
        r
    }
}

} // verus!
