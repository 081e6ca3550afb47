//! HMAC-SHA256, computed with the `hmac` and `sha2` crates.
use hmac::{Hmac, Mac};
use sha2::Sha256;
use vstd::prelude::*;

verus! {

/// The HMAC-SHA256 tag of `message` under `key` (RFC 2104 with SHA-256).
pub uninterp spec fn hmac_sha256(key: Seq<u8>, message: Seq<u8>) -> Seq<u8>;

/// Checks `tag` against the HMAC-SHA256 of `message` under `key` with the
/// `hmac` crate: `Mac::new_from_slice` (which accepts keys of any length, so
/// its `expect` never fires), `Mac::update` and `Mac::verify_slice`, whose
/// comparison takes constant time. States that the answer is `true` exactly
/// when `tag` equals the full tag, and that a `tag` that is not 32 bytes long
/// (the output size of SHA-256, `OutputSize = U32` in `sha2`, which
/// `verify_slice` checks first) is refused; the tag's bytes are only named.
#[verifier::external_body]
pub(crate) fn hmac_sha256_verify(key: &[u8], message: &[u8], tag: &[u8]) -> (ok: bool)
    ensures
        ok == (tag@ == hmac_sha256(key@, message@)),
        tag@.len() != 32 ==> !ok,
{
    let mut mac = <Hmac<Sha256> as Mac>::new_from_slice(key).expect("HMAC accepts keys of any size");
    mac.update(message);
    mac.verify_slice(tag).is_ok()
}

/// Computes the HMAC-SHA256 tag of `message` under `key` with the `hmac`
/// crate: `Mac::new_from_slice` (which accepts keys of any length),
/// `Mac::update`, then `Mac::finalize` and `into_bytes`. States that the tag
/// is the one `hmac_sha256` names, and that it is 32 bytes long (the output
/// size of SHA-256, `OutputSize = U32` in `sha2`).
#[verifier::external_body]
pub(crate) fn hmac_sha256_tag(key: &[u8], message: &[u8]) -> (tag: Vec<u8>)
    ensures
        tag@ == hmac_sha256(key@, message@),
        tag@.len() == 32,
{
    let mut mac = <Hmac<Sha256> as Mac>::new_from_slice(key).expect("HMAC accepts keys of any size");
    mac.update(message);
    mac.finalize().into_bytes().to_vec()
}

} // verus!
