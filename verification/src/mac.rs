//! HMAC-SHA256, computed by `ring`.

use vstd::prelude::*;

verus! {

/// Length in bytes of an HMAC-SHA256 tag.
pub const TAG_LEN: usize = 32;

/// Largest key or message, in bytes, that the digest accepts: with one more
/// block for the padded key, the bit count must still fit in 64 bits.
pub const MAX_MAC_INPUT: u64 = 0x1FFF_FFFF_FFFF_FFBF;

/// The HMAC-SHA256 tag of `data` under `key`: what `ring::hmac::sign` returns
/// for a key built by `ring::hmac::Key::new` with `HMAC_SHA256`.
pub uninterp spec fn hmac_sha256(key: Seq<u8>, data: Seq<u8>) -> Seq<u8>;

/// Builds the key with `ring::hmac::Key::new` and calls `ring::hmac::sign`.
///
/// Trusted: the tag is the HMAC-SHA256 of `data` under `key`, and it is
/// `TAG_LEN` bytes long (the output length of SHA-256). Beyond the lengths
/// asked for, the digest's bit counter overflows and `ring` panics.
#[verifier::external_body]
pub(crate) fn sign(key: &[u8], data: &[u8]) -> (tag: Vec<u8>)
    requires
        key@.len() <= MAX_MAC_INPUT,
        data@.len() <= MAX_MAC_INPUT,
    ensures
        tag@ == hmac_sha256(key@, data@),
        tag@.len() == TAG_LEN,
{
    let key = ring::hmac::Key::new(ring::hmac::HMAC_SHA256, key);
    ring::hmac::sign(&key, data).as_ref().to_vec()
}

/// Builds the key with `ring::hmac::Key::new` and calls `ring::hmac::verify`.
///
/// Trusted: `ring` signs `data` again and compares the outcome with `tag` in
/// constant time, lengths first; it accepts exactly when the two are equal.
#[verifier::external_body]
pub(crate) fn verify(key: &[u8], data: &[u8], tag: &[u8]) -> (ok: bool)
    requires
        key@.len() <= MAX_MAC_INPUT,
        data@.len() <= MAX_MAC_INPUT,
    ensures
        ok == (tag@ == hmac_sha256(key@, data@)),
{
    let key = ring::hmac::Key::new(ring::hmac::HMAC_SHA256, key);
    ring::hmac::verify(&key, data, tag).is_ok()
}

} // verus!
