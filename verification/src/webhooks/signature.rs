//! Checking the signature of a webhook delivery.
//!
//! The webhook service signs `v1:<unix_timestamp>:<raw_body>` with
//! HMAC-SHA256 and sends `v1=<lowercase hex digest>` in the signature header
//! together with the Unix timestamp in the timestamp header.
use super::error::WebhookError;
use crate::clock::unix_time_secs;
use super::properties::lemma_signed_delivery_accepted;
use crate::decimal::{decimal_bytes, decimal_chars, decimal_digits, parse_u64, parse_u64_spec};
use crate::hex_codec::{hex_decode, hex_decode_spec, hex_encode_lower, lower_hex_digit};
use crate::mac::{hmac_sha256, hmac_sha256_tag, hmac_sha256_verify};
use crate::samples::{push_padded_decimal, zero_padded};
use crate::text::{chars_of, find_char, split_once, sub_vec, trim, trim_bounds};
use vstd::prelude::*;

verus! {

/// Header carrying the versioned webhook payload signature.
pub const SIGNATURE_HEADER: &'static str = "X-SumUp-Webhook-Signature";

/// Header carrying the Unix timestamp used for signing.
pub const TIMESTAMP_HEADER: &'static str = "X-SumUp-Webhook-Timestamp";

/// Current webhook signature scheme version.
pub const SIGNATURE_VERSION: &'static str = "v1";

/// Default maximum allowed difference, in seconds, between the webhook
/// timestamp and the local clock.
pub const DEFAULT_TOLERANCE_SECS: u64 = 300;

/// The scheme version as it appears in the signature header.
pub open spec fn version_chars() -> Seq<char> {
    seq!['v', '1']
}

/// The bytes that the webhook service signs: `v1:<timestamp>:<payload>`.
pub open spec fn signed_payload_spec(timestamp: u64, payload: Seq<u8>) -> Seq<u8> {
    seq![118u8, 49u8, 58u8] + decimal_bytes(timestamp as nat) + seq![58u8] + payload
}

/// The ASCII codes of `s`, or `None` when `s` holds a character beyond ASCII.
pub open spec fn ascii_bytes(s: Seq<char>) -> Option<Seq<u8>> {
    if forall|i: int| 0 <= i < s.len() ==> (#[trigger] s[i] as u32) < 128 {
        Some(s.map_values(|c: char| (c as u32) as u8))
    } else {
        None
    }
}

/// The tag carried by a (trimmed) signature header `v1=<hex>`, or `None`
/// when the header does not have that form. Hexadecimal digits are read with
/// `hex::decode`, which rejects any byte that is not an ASCII hex digit.
pub open spec fn header_tag(signature: Seq<char>) -> Option<Seq<u8>> {
    match split_once(signature, '=') {
        None => None,
        Some((version, digest)) => if version == version_chars() && digest.len() > 0 {
            match ascii_bytes(digest) {
                Some(bytes) => hex_decode_spec(bytes),
                None => None,
            }
        } else {
            None
        },
    }
}

/// The signature header that the webhook service sends for a delivery of
/// `payload` signed at `timestamp`: `v1=` and the lower-case hexadecimal
/// HMAC-SHA256 of the signed payload.
pub open spec fn signature_header_for(secret: Seq<u8>, payload: Seq<u8>, timestamp: u64) -> Seq<char> {
    version_chars() + seq!['='] + hex_encode_lower(hmac_sha256(secret, signed_payload_spec(timestamp, payload))).map_values(
        |b: u8| b as char,
    )
}

/// The distance between two instants, in seconds.
pub open spec fn abs_diff(a: u64, b: u64) -> int {
    if a >= b { a - b } else { b - a }
}

/// The outcome of checking a delivery at the instant `now`: the first failing
/// step decides the error, in this order: signature header present, timestamp
/// header present, timestamp readable, timestamp within `tolerance` seconds of
/// `now`, signature header of the form `v1=<hex>`, tag equal to the
/// HMAC-SHA256 of the signed payload under `secret`.
pub open spec fn check_signature(
    secret: Seq<u8>,
    payload: Seq<u8>,
    signature_header: Seq<char>,
    timestamp_header: Seq<char>,
    tolerance: u64,
    now: u64,
) -> Result<(), WebhookError> {
    let signature = trim(signature_header);
    let timestamp = trim(timestamp_header);
    if signature.len() == 0 {
        Err(WebhookError::MissingSignature)
    } else if timestamp.len() == 0 {
        Err(WebhookError::MissingTimestamp)
    } else {
        match parse_u64_spec(timestamp) {
            Err(kind) => Err(WebhookError::InvalidTimestampHeader(kind)),
            Ok(t) => if abs_diff(now, t) > tolerance {
                Err(WebhookError::SignatureExpired)
            } else {
                match header_tag(signature) {
                    None => Err(WebhookError::InvalidSignatureHeader),
                    Some(tag) => if tag == hmac_sha256(secret, signed_payload_spec(t, payload)) {
                        Ok(())
                    } else {
                        Err(WebhookError::InvalidSignature)
                    },
                }
            },
        }
    }
}

/// The outcome of checking a delivery when the clock reads a time before the
/// Unix epoch: the steps before the clock decide as usual (signature header
/// present, timestamp header present and readable); a delivery that passes
/// them is refused as expired, since there is no instant to compare its
/// timestamp with.
pub open spec fn check_signature_without_clock(
    secret: Seq<u8>,
    payload: Seq<u8>,
    signature_header: Seq<char>,
    timestamp_header: Seq<char>,
) -> Result<(), WebhookError> {
    match check_signature(secret, payload, signature_header, timestamp_header, 0, 0) {
        Err(WebhookError::MissingSignature) => Err(WebhookError::MissingSignature),
        Err(WebhookError::MissingTimestamp) => Err(WebhookError::MissingTimestamp),
        Err(WebhookError::InvalidTimestampHeader(kind)) => Err(WebhookError::InvalidTimestampHeader(kind)),
        _ => Err(WebhookError::SignatureExpired),
    }
}

/// The outcome of checking a delivery against a clock reading: seconds since
/// the Unix epoch, or `None` for a clock before the epoch.
pub open spec fn check_signature_at_clock(
    secret: Seq<u8>,
    payload: Seq<u8>,
    signature_header: Seq<char>,
    timestamp_header: Seq<char>,
    tolerance: u64,
    clock: Option<u64>,
) -> Result<(), WebhookError> {
    match clock {
        Some(now) => check_signature(secret, payload, signature_header, timestamp_header, tolerance, now),
        None => check_signature_without_clock(secret, payload, signature_header, timestamp_header),
    }
}

/// The bytes that the webhook service signs: `v1:<timestamp>:<payload>`.
pub fn signed_payload(timestamp: u64, payload: &[u8]) -> (v: Vec<u8>)
    ensures
        v@ == signed_payload_spec(timestamp, payload@),
{
    let mut v: Vec<u8> = Vec::new();
    v.push(118u8);
    v.push(49u8);
    v.push(58u8);
    let digits = decimal_digits(timestamp);
    let ghost head = v@;
    let mut i: usize = 0;
    while i < digits.len()
        invariant
            i <= digits.len(),
            head == seq![118u8, 49u8, 58u8],
            v@ == head + digits@.subrange(0, i as int),
        decreases digits.len() - i,
    {
        v.push(digits[i]);
        i = i + 1;
        assert(v@ =~= head + digits@.subrange(0, i as int));
    }
    v.push(58u8);
    let ghost mid = v@;
    assert(mid =~= seq![118u8, 49u8, 58u8] + decimal_bytes(timestamp as nat) + seq![58u8]);
    let mut j: usize = 0;
    while j < payload.len()
        invariant
            j <= payload.len(),
            v@ == mid + payload@.subrange(0, j as int),
        decreases payload.len() - j,
    {
        v.push(payload[j]);
        j = j + 1;
        assert(v@ =~= mid + payload@.subrange(0, j as int));
    }
    assert(payload@.subrange(0, payload.len() as int) =~= payload@);
    v
}

/// The text of one lower-case hexadecimal digit.
fn hex_digit_text(v: u8) -> (r: &'static str)
    requires
        v < 16,
    ensures
        r@ == seq![lower_hex_digit(v as int) as char],
{
    proof {
        reveal_strlit("0");
        reveal_strlit("1");
        reveal_strlit("2");
        reveal_strlit("3");
        reveal_strlit("4");
        reveal_strlit("5");
        reveal_strlit("6");
        reveal_strlit("7");
        reveal_strlit("8");
        reveal_strlit("9");
        reveal_strlit("a");
        reveal_strlit("b");
        reveal_strlit("c");
        reveal_strlit("d");
        reveal_strlit("e");
        reveal_strlit("f");
    }
    match v {
        0 => "0",
        1 => "1",
        2 => "2",
        3 => "3",
        4 => "4",
        5 => "5",
        6 => "6",
        7 => "7",
        8 => "8",
        9 => "9",
        10 => "a",
        11 => "b",
        12 => "c",
        13 => "d",
        14 => "e",
        _ => "f",
    }
}

/// The signature header that the webhook service sends for a delivery of
/// `payload` signed at `timestamp` with `secret`: `v1=` and the lower-case
/// hexadecimal HMAC-SHA256 of the signed payload, which is 32 bytes long.
pub fn signature_header(secret: &[u8], payload: &[u8], timestamp: u64) -> (r: String)
    ensures
        r@ == signature_header_for(secret@, payload@, timestamp),
        hmac_sha256(secret@, signed_payload_spec(timestamp, payload@)).len() == 32,
{
    let signed = signed_payload(timestamp, payload);
    let tag = hmac_sha256_tag(secret, signed.as_slice());
    let mut s = String::from_str("v1=");
    proof { reveal_strlit("v1="); }
    let ghost head = s@;
    assert(head == version_chars() + seq!['=']);
    let mut i: usize = 0;
    while i < tag.len()
        invariant
            i <= tag@.len(),
            head == version_chars() + seq!['='],
            s@ == head + hex_encode_lower(tag@.subrange(0, i as int)).map_values(|b: u8| b as char),
        decreases tag.len() - i,
    {
        let b = tag[i];
        let hi = hex_digit_text(b / 16);
        let lo = hex_digit_text(b % 16);
        let ghost before = s@;
        s.append(hi);
        s.append(lo);
        let ghost prev = tag@.subrange(0, i as int);
        let ghost next = tag@.subrange(0, i + 1);
        assert(hex_encode_lower(next) =~= hex_encode_lower(prev) + seq![
            lower_hex_digit((b / 16) as int),
            lower_hex_digit((b % 16) as int),
        ]) by {
            assert forall|j: int| 0 <= j < 2 * prev.len() implies #[trigger] next[j / 2] == prev[j / 2] by {
                assert(j / 2 < prev.len());
            }
            assert(next[(2 * i as int) / 2] == b);
            assert(next[(2 * i as int + 1) / 2] == b);
        }
        assert(s@ =~= head + hex_encode_lower(next).map_values(|b: u8| b as char));
        i = i + 1;
    }
    assert(tag@.subrange(0, i as int) =~= tag@);
    s
}

/// The timestamp header that the webhook service sends for a delivery signed
/// at `timestamp`: its decimal digits.
pub fn timestamp_header(timestamp: u64) -> (r: String)
    ensures
        r@ == decimal_chars(timestamp as nat),
{
    let mut s = String::new();
    push_padded_decimal(&mut s, timestamp, 0);
    assert(zero_padded(decimal_chars(timestamp as nat), 0) == decimal_chars(timestamp as nat));
    assert(s@ =~= decimal_chars(timestamp as nat));
    s
}

/// Reads the tag of a trimmed signature header, as `header_tag` states.
fn read_header_tag(signature: &Vec<char>) -> (r: Option<Vec<u8>>)
    ensures
        match header_tag(signature@) {
            Some(tag) => r matches Some(v) && v@ == tag,
            None => r is None,
        },
{
    let n = signature.len();
    assert(signature@.subrange(0, n as int) =~= signature@);
    let eq = find_char(signature, 0, n, '=');
    let k = match eq {
        None => return None,
        Some(k) => k,
    };
    let ghost version = signature@.subrange(0, k as int);
    let ghost digest = signature@.subrange(k + 1, n as int);
    if !(k == 2 && signature[0] == 'v' && signature[1] == '1') {
        proof {
            if k == 2 {
                assert(version[0] == signature@[0]);
                assert(version[1] == signature@[1]);
                if signature@[0] != 'v' {
                    assert(version[0] != version_chars()[0]);
                } else {
                    assert(version[1] != version_chars()[1]);
                }
            } else {
                assert(version.len() != version_chars().len());
            }
        }
        return None;
    }
    assert(version =~= version_chars());
    assert(split_once(signature@, '=') == Some((version, digest)));
    if k + 1 >= n {
        return None;
    }
    let mut bytes: Vec<u8> = Vec::new();
    let mut i: usize = k + 1;
    while i < n
        invariant
            k + 1 <= i <= n,
            n == signature.len(),
            digest == signature@.subrange(k + 1, n as int),
            digest.len() > 0,
            version == version_chars(),
            split_once(signature@, '=') == Some((version, digest)),
            bytes@.len() == i - (k + 1),
            forall|j: int| 0 <= j < bytes@.len() ==> (#[trigger] digest[j] as u32) < 128
                && bytes@[j] == (digest[j] as u32) as u8,
        decreases n - i,
    {
        let c = signature[i];
        let code: u32 = c as u32;
        assert(digest[i - (k + 1)] == signature@[i as int]);
        if code >= 128 {
            assert(!((digest[i - (k + 1)] as u32) < 128));
            assert(ascii_bytes(digest) is None);
            return None;
        }
        bytes.push(code as u8);
        i = i + 1;
    }
    assert(bytes@ =~= digest.map_values(|c: char| (c as u32) as u8));
    assert(ascii_bytes(digest) == Some(bytes@));
    match hex_decode(bytes.as_slice()) {
        Ok(tag) => Some(tag),
        Err(_) => None,
    }
}

/// Checks a webhook delivery as if the local clock read `now` (seconds since
/// the Unix epoch), allowing `tolerance_secs` of clock skew.
pub fn verify_signature_at(
    secret: &[u8],
    payload: &[u8],
    signature_header: &str,
    timestamp_header: &str,
    tolerance_secs: u64,
    now: u64,
) -> (r: Result<(), WebhookError>)
    ensures
        r == check_signature(secret@, payload@, signature_header@, timestamp_header@, tolerance_secs, now),
        header_tag(trim(signature_header@)) matches Some(tag) && tag.len() != 32 ==> r is Err,
        forall|t: u64|
            #![trigger signature_header_for(secret@, payload@, t)]
            signature_header@ == signature_header_for(secret@, payload@, t) && timestamp_header@ == decimal_chars(
                t as nat,
            ) && abs_diff(now, t) <= tolerance_secs && hmac_sha256(secret@, signed_payload_spec(t, payload@)).len()
                > 0 ==> r is Ok,
{
    proof {
        assert forall|t: u64|
            #![trigger signature_header_for(secret@, payload@, t)]
            signature_header@ == signature_header_for(secret@, payload@, t) && timestamp_header@ == decimal_chars(
                t as nat,
            ) && abs_diff(now, t) <= tolerance_secs && hmac_sha256(secret@, signed_payload_spec(t, payload@)).len()
                > 0 implies check_signature(
                secret@,
                payload@,
                signature_header@,
                timestamp_header@,
                tolerance_secs,
                now,
            ) is Ok by {
            lemma_signed_delivery_accepted(secret@, payload@, t, tolerance_secs, now);
        }
    }
    let signature_chars = chars_of(signature_header);
    let (sa, sb) = trim_bounds(&signature_chars);
    if sa == sb {
        return Err(WebhookError::MissingSignature);
    }
    let timestamp_chars = chars_of(timestamp_header);
    let (ta, tb) = trim_bounds(&timestamp_chars);
    if ta == tb {
        return Err(WebhookError::MissingTimestamp);
    }
    let timestamp_text = sub_vec(&timestamp_chars, ta, tb);
    let timestamp = match parse_u64(&timestamp_text) {
        Err(kind) => return Err(WebhookError::InvalidTimestampHeader(kind)),
        Ok(t) => t,
    };
    let distance = if now >= timestamp { now - timestamp } else { timestamp - now };
    if distance > tolerance_secs {
        return Err(WebhookError::SignatureExpired);
    }
    let signature = sub_vec(&signature_chars, sa, sb);
    let tag = match read_header_tag(&signature) {
        None => return Err(WebhookError::InvalidSignatureHeader),
        Some(tag) => tag,
    };
    let signed = signed_payload(timestamp, payload);
    if hmac_sha256_verify(secret, signed.as_slice(), tag.as_slice()) {
        Ok(())
    } else {
        Err(WebhookError::InvalidSignature)
    }
}

/// Verifies a webhook payload signature against the raw body, with the
/// default tolerance and the system clock. The result is the one
/// `check_signature` gives for the instant at which the clock was read.
pub fn verify_signature(
    secret: &[u8],
    payload: &[u8],
    signature_header: &str,
    timestamp_header: &str,
) -> (r: Result<(), WebhookError>)
    ensures
        exists|clock: Option<u64>|
            r == #[trigger] check_signature_at_clock(
                secret@,
                payload@,
                signature_header@,
                timestamp_header@,
                DEFAULT_TOLERANCE_SECS,
                clock,
            ),
        header_tag(trim(signature_header@)) matches Some(tag) && tag.len() != 32 ==> r is Err,
{
    verify_signature_with_tolerance(secret, payload, signature_header, timestamp_header, DEFAULT_TOLERANCE_SECS)
}

/// Verifies a webhook payload signature with the system clock and the given
/// tolerance in seconds.
pub fn verify_signature_with_tolerance(
    secret: &[u8],
    payload: &[u8],
    signature_header: &str,
    timestamp_header: &str,
    tolerance_secs: u64,
) -> (r: Result<(), WebhookError>)
    ensures
        exists|clock: Option<u64>|
            r == #[trigger] check_signature_at_clock(
                secret@,
                payload@,
                signature_header@,
                timestamp_header@,
                tolerance_secs,
                clock,
            ),
        header_tag(trim(signature_header@)) matches Some(tag) && tag.len() != 32 ==> r is Err,
{
    let clock = unix_time_secs();
    let r = match clock {
        Some(now) => verify_signature_at(secret, payload, signature_header, timestamp_header, tolerance_secs, now),
        None => verify_signature_without_clock(secret, payload, signature_header, timestamp_header),
    };
    assert(r == check_signature_at_clock(secret@, payload@, signature_header@, timestamp_header@, tolerance_secs, clock));
    r
}

/// Checks a webhook delivery when the clock reads a time before the Unix
/// epoch.
fn verify_signature_without_clock(
    secret: &[u8],
    payload: &[u8],
    signature_header: &str,
    timestamp_header: &str,
) -> (r: Result<(), WebhookError>)
    ensures
        r == check_signature_without_clock(secret@, payload@, signature_header@, timestamp_header@),
        r is Err,
{
    let r = verify_signature_at(secret, payload, signature_header, timestamp_header, 0, 0);
    match r {
        Err(WebhookError::MissingSignature) => Err(WebhookError::MissingSignature),
        Err(WebhookError::MissingTimestamp) => Err(WebhookError::MissingTimestamp),
        Err(WebhookError::InvalidTimestampHeader(kind)) => Err(WebhookError::InvalidTimestampHeader(kind)),
        _ => Err(WebhookError::SignatureExpired),
    }
}

} // verus!
