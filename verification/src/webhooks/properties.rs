//! Properties of webhook verification and classification that span the
//! functions of this module.
use super::error::WebhookError;
use super::handler::verified_notification;
use super::events::{
    classify_event, decoded_notification, expected_object_type, notification_created_at, mismatch_of, notification_event_type, notification_id,
    notification_object, object_of, EventNotification, RawEvent,
};
use super::signature::{
    abs_diff, ascii_bytes, check_signature, header_tag, signature_header_for, signed_payload_spec, version_chars,
};
use crate::decimal::{decimal_bytes, decimal_chars, lemma_decimal_bytes_digits, lemma_parse_decimal_roundtrip, parse_u64_spec};
use crate::hex_codec::{hex_decode_spec, hex_encode_lower, lemma_hex_roundtrip, lower_hex_digit};
use crate::mac::hmac_sha256;
use crate::text::{
    first_index_of, is_white_space, lemma_first_index_found, lemma_trim_ignores_padding, split_once, trim, trim_end,
    trim_start,
};
use vstd::prelude::*;

verus! {

/// A text without whitespace is its own trimmed form.
pub proof fn lemma_trim_no_white_space(s: Seq<char>)
    requires
        forall|i: int| 0 <= i < s.len() ==> !is_white_space(#[trigger] s[i]),
    ensures
        trim(s) == s,
{
    assert(trim_start(s) == s);
    assert(trim_end(s) == s);
}

/// Whitespace around the header values never changes the outcome of a check.
pub proof fn lemma_header_padding_ignored(
    secret: Seq<u8>,
    payload: Seq<u8>,
    signature_header: Seq<char>,
    timestamp_header: Seq<char>,
    pads: (Seq<char>, Seq<char>, Seq<char>, Seq<char>),
    tolerance: u64,
    now: u64,
)
    requires
        forall|i: int| 0 <= i < pads.0.len() ==> is_white_space(#[trigger] pads.0[i]),
        forall|i: int| 0 <= i < pads.1.len() ==> is_white_space(#[trigger] pads.1[i]),
        forall|i: int| 0 <= i < pads.2.len() ==> is_white_space(#[trigger] pads.2[i]),
        forall|i: int| 0 <= i < pads.3.len() ==> is_white_space(#[trigger] pads.3[i]),
    ensures
        check_signature(
            secret,
            payload,
            pads.0 + signature_header + pads.1,
            pads.2 + timestamp_header + pads.3,
            tolerance,
            now,
        ) == check_signature(secret, payload, signature_header, timestamp_header, tolerance, now),
{
    lemma_trim_ignores_padding(pads.0, signature_header, pads.1);
    lemma_trim_ignores_padding(pads.2, timestamp_header, pads.3);
}

proof fn lemma_lower_hex_digit_bounds(v: int)
    requires
        0 <= v < 16,
    ensures
        48 <= lower_hex_digit(v) <= 57 || 97 <= lower_hex_digit(v) <= 102,
{
}

/// A delivery that the webhook service signed is accepted: with the
/// signature header `v1=<hex HMAC>` and the decimal timestamp as headers,
/// the check succeeds whenever the clock is within the tolerance of the
/// timestamp. (An HMAC-SHA256 tag is never empty; a header `v1=` with an
/// empty digest would be rejected as malformed.)
pub proof fn lemma_signed_delivery_accepted(secret: Seq<u8>, payload: Seq<u8>, timestamp: u64, tolerance: u64, now: u64)
    requires
        abs_diff(now, timestamp) <= tolerance,
        hmac_sha256(secret, signed_payload_spec(timestamp, payload)).len() > 0,
    ensures
        check_signature(
            secret,
            payload,
            signature_header_for(secret, payload, timestamp),
            decimal_chars(timestamp as nat),
            tolerance,
            now,
        ) == Ok::<(), WebhookError>(()),
{
    let tag = hmac_sha256(secret, signed_payload_spec(timestamp, payload));
    let hex = hex_encode_lower(tag);
    let digest = hex.map_values(|b: u8| b as char);
    let sig = signature_header_for(secret, payload, timestamp);
    let ts = decimal_chars(timestamp as nat);
    assert(sig =~= version_chars() + seq!['='] + digest);
    assert forall|i: int| 0 <= i < hex.len() implies 48 <= #[trigger] hex[i] <= 102 && hex[i] != 61 by {
        let b = tag[i / 2];
        if i % 2 == 0 {
            lemma_lower_hex_digit_bounds((b / 16) as int);
        } else {
            lemma_lower_hex_digit_bounds((b % 16) as int);
        }
    }
    assert forall|i: int| 0 <= i < sig.len() implies !is_white_space(#[trigger] sig[i]) by {
        if i >= 3 {
            assert(sig[i] == digest[i - 3]);
            assert(digest[i - 3] == hex[i - 3] as char);
        }
    }
    lemma_trim_no_white_space(sig);
    lemma_decimal_bytes_digits(timestamp as nat);
    assert forall|i: int| 0 <= i < ts.len() implies !is_white_space(#[trigger] ts[i]) by {
        assert(ts[i] == decimal_bytes(timestamp as nat)[i] as char);
    }
    lemma_trim_no_white_space(ts);
    lemma_parse_decimal_roundtrip(timestamp);
    assert(parse_u64_spec(trim(ts)) == Ok::<u64, crate::decimal::ParseIntErrorKind>(timestamp));
    lemma_first_index_found(sig, '=', 2);
    assert(sig.subrange(0, 2) =~= version_chars());
    assert(sig.subrange(3, sig.len() as int) =~= digest);
    assert(split_once(sig, '=') == Some((version_chars(), digest)));
    assert forall|i: int| 0 <= i < digest.len() implies (#[trigger] digest[i] as u32) < 128 by {
        assert(digest[i] == hex[i] as char);
    }
    assert(digest.map_values(|c: char| (c as u32) as u8) =~= hex);
    assert(ascii_bytes(digest) == Some(hex));
    lemma_hex_roundtrip(tag);
    assert(header_tag(sig) == Some(tag));
}

/// A delivery that the webhook service signed, checked within the tolerance,
/// is classified like its decoded body: verifying first takes nothing away.
pub proof fn lemma_signed_delivery_parsed(
    secret: Seq<u8>,
    payload: Seq<u8>,
    timestamp: u64,
    tolerance: u64,
    now: u64,
    decoded: Result<RawEvent, serde_json::Error>,
)
    requires
        abs_diff(now, timestamp) <= tolerance,
        hmac_sha256(secret, signed_payload_spec(timestamp, payload)).len() > 0,
    ensures
        verified_notification(
            secret,
            payload,
            signature_header_for(secret, payload, timestamp),
            decimal_chars(timestamp as nat),
            tolerance,
            Some(now),
            decoded,
        ) == decoded_notification(decoded),
{
    lemma_signed_delivery_accepted(secret, payload, timestamp, tolerance, now);
}

/// An accepted delivery carried a readable timestamp within the tolerance of
/// the clock, and a signature header whose tag is the HMAC-SHA256 of the
/// signed payload for that timestamp under the secret.
pub proof fn lemma_accepted_delivery_is_authentic(
    secret: Seq<u8>,
    payload: Seq<u8>,
    signature_header: Seq<char>,
    timestamp_header: Seq<char>,
    tolerance: u64,
    now: u64,
)
    requires
        check_signature(secret, payload, signature_header, timestamp_header, tolerance, now) == Ok::<(), WebhookError>(()),
    ensures
        exists|t: u64|
            {
                &&& parse_u64_spec(trim(timestamp_header)) == Ok::<u64, crate::decimal::ParseIntErrorKind>(t)
                &&& abs_diff(now, t) <= tolerance
                &&& #[trigger] header_tag(trim(signature_header)) == Some(hmac_sha256(secret, signed_payload_spec(t, payload)))
            },
{
    let t = parse_u64_spec(trim(timestamp_header)).unwrap();
    assert(header_tag(trim(signature_header)) == Some(hmac_sha256(secret, signed_payload_spec(t, payload))));
}

/// A well-formed delivery whose timestamp lies more than the tolerance away
/// from the clock is rejected as expired, whatever its signature.
pub proof fn lemma_stale_delivery_expires(
    secret: Seq<u8>,
    payload: Seq<u8>,
    signature_header: Seq<char>,
    timestamp_header: Seq<char>,
    tolerance: u64,
    now: u64,
    t: u64,
)
    requires
        trim(signature_header).len() > 0,
        parse_u64_spec(trim(timestamp_header)) == Ok::<u64, crate::decimal::ParseIntErrorKind>(t),
        abs_diff(now, t) > tolerance,
    ensures
        check_signature(secret, payload, signature_header, timestamp_header, tolerance, now)
            == Err::<(), WebhookError>(WebhookError::SignatureExpired),
{
}

/// Widening the tolerance never turns an accepted delivery into a rejected
/// one.
pub proof fn lemma_tolerance_monotone(
    secret: Seq<u8>,
    payload: Seq<u8>,
    signature_header: Seq<char>,
    timestamp_header: Seq<char>,
    tolerance: u64,
    wider: u64,
    now: u64,
)
    requires
        tolerance <= wider,
        check_signature(secret, payload, signature_header, timestamp_header, tolerance, now) == Ok::<(), WebhookError>(()),
    ensures
        check_signature(secret, payload, signature_header, timestamp_header, wider, now) == Ok::<(), WebhookError>(()),
{
}

/// A classified notification reports the raw event's type, identifier,
/// creation timestamp and object reference.
pub proof fn lemma_classification_keeps_event(raw: RawEvent)
    ensures
        classify_event(raw) matches Ok(n) ==> {
            &&& notification_event_type(n) == raw.event_type@
            &&& notification_id(n) == raw.id
            &&& notification_created_at(n) == raw.created_at
            &&& notification_object(n) == object_of(raw.object)
            &&& notification_object(n).id == raw.object.id
            &&& notification_object(n).object_type == raw.object.object_type
            &&& notification_object(n).url == raw.object.url
        },
{
}

/// Classification fails exactly when the event type is known and the object
/// type is not the one it calls for, and the error names both types.
pub proof fn lemma_classification_rejects_exactly_mismatches(raw: RawEvent)
    ensures
        classify_event(raw) is Err <==> (expected_object_type(raw.event_type@) matches Some(o) && o != raw.object.object_type@),
        classify_event(raw) is Err ==> classify_event(raw) == Err::<EventNotification, WebhookError>(mismatch_of(raw)),
{
}

/// A notification is worth fetching (it is not `Unknown`) exactly when its
/// event type is one the SDK knows.
pub proof fn lemma_known_events_are_typed(raw: RawEvent)
    ensures
        classify_event(raw) matches Ok(n) ==> (!(n is Unknown) <==> expected_object_type(raw.event_type@) is Some),
{
}

} // verus!
