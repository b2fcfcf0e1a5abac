//! Deterministic authenticated encryption of an identity string.
//!
//! The nonce is not random: it is the first twelve bytes of the HMAC of the
//! plaintext under the encryption key. Equal plaintexts under one key therefore
//! give equal ciphertexts, which lets a ciphertext stand in for the identity it
//! hides.

use aes_gcm::aead::{Aead, NewAead};
use vstd::prelude::*;
use crate::config::ConfigurationError;
use crate::mac::{hmac_sha256, sign, TAG_LEN};

verus! {

/// Length in bytes of an AES-256 key.
pub const KEY_LEN: usize = 32;

/// Length in bytes of the nonce that follows the sealed bytes.
pub const NONCE_LEN: usize = 12;

/// Length in bytes of the authentication tag that AES-GCM appends.
pub const SEAL_OVERHEAD: usize = 16;

/// Longest plaintext, in bytes, that one nonce can cover: the 32-bit block
/// counter starts at one and must not wrap.
pub const MAX_PLAINTEXT_LEN: u64 = 0xF_FFFF_FFEF;

/// What AES-256-GCM gives for `msg` under `key` and `nonce`, with no
/// associated data: the encrypted bytes followed by the tag.
pub uninterp spec fn aes256_gcm_sealed(key: Seq<u8>, nonce: Seq<u8>, msg: Seq<u8>) -> Seq<u8>;

/// What AES-256-GCM recovers from `sealed` under `key` and `nonce`, or `None`
/// where the tag does not match.
pub uninterp spec fn aes256_gcm_opened(key: Seq<u8>, nonce: Seq<u8>, sealed: Seq<u8>) -> Option<
    Seq<u8>,
>;

/// The error of `aes_gcm`'s operations. It says nothing beyond that the
/// operation failed, and is carried no further than [`decrypt`].
#[verifier::external_type_specification]
#[verifier::external_body]
pub struct ExAeadError(aes_gcm::Error);

/// Why a ciphertext was not decrypted.
#[derive(Debug, Clone, Copy, PartialEq, Eq)]
pub enum DecryptError {
    /// The key is not 256 bits long.
    Configuration(ConfigurationError),
    /// The ciphertext failed authentication, or is too short to hold a nonce.
    AuthenticationFailed,
}

/// Builds the cipher with `Aes256Gcm::new` and calls `Aead::encrypt` on it.
///
/// Trusted: the result is the AES-256-GCM sealing of `msg`, sixteen bytes longer
/// than `msg`, and opening it under the same key and nonce gives `msg` back.
/// The lengths asked for are those beyond which the crate panics: key and
/// nonce are taken by `from_slice`, and the block counter must not wrap.
#[verifier::external_body]
#[allow(deprecated)]
fn seal(key: &[u8], nonce: &[u8], msg: &[u8]) -> (sealed: Vec<u8>)
    requires
        key@.len() == KEY_LEN,
        nonce@.len() == NONCE_LEN,
        msg@.len() <= MAX_PLAINTEXT_LEN,
    ensures
        sealed@ == aes256_gcm_sealed(key@, nonce@, msg@),
        sealed@.len() == msg@.len() + SEAL_OVERHEAD,
        aes256_gcm_opened(key@, nonce@, sealed@) == Some(msg@),
{
    let cipher = aes_gcm::Aes256Gcm::new(aes_gcm::Key::from_slice(key));
    cipher.encrypt(aes_gcm::Nonce::from_slice(nonce), msg).unwrap()
}

/// Builds the cipher with `Aes256Gcm::new` and calls `Aead::decrypt` on it.
///
/// Trusted: the result is what AES-256-GCM recovers from `sealed`, which
/// depends on the three arguments alone; an input shorter than the tag is
/// refused.
#[verifier::external_body]
#[allow(deprecated)]
fn unseal(key: &[u8], nonce: &[u8], sealed: &[u8]) -> (r: Result<Vec<u8>, aes_gcm::Error>)
    requires
        key@.len() == KEY_LEN,
        nonce@.len() == NONCE_LEN,
        sealed@.len() <= MAX_PLAINTEXT_LEN + SEAL_OVERHEAD,
    ensures
        match r {
            Ok(msg) => aes256_gcm_opened(key@, nonce@, sealed@) == Some(msg@),
            Err(_) => aes256_gcm_opened(key@, nonce@, sealed@) is None,
        },
        sealed@.len() < SEAL_OVERHEAD ==> r is Err,
{
    let cipher = aes_gcm::Aes256Gcm::new(aes_gcm::Key::from_slice(key));
    cipher.decrypt(aes_gcm::Nonce::from_slice(nonce), sealed)
}

/// The nonce under which `msg` is sealed with `key`.
pub open spec fn derived_nonce(msg: Seq<u8>, key: Seq<u8>) -> Seq<u8> {
    hmac_sha256(key, msg).subrange(0, NONCE_LEN as int)
}

/// The ciphertext of `msg` under `key`: the sealed bytes, then the nonce.
pub open spec fn ciphertext_of(msg: Seq<u8>, key: Seq<u8>) -> Seq<u8> {
    aes256_gcm_sealed(key, derived_nonce(msg, key), msg) + derived_nonce(msg, key)
}

/// The sealed part of a ciphertext: all but its last `NONCE_LEN` bytes.
pub open spec fn sealed_part(ciphertext: Seq<u8>) -> Seq<u8> {
    ciphertext.subrange(0, ciphertext.len() - NONCE_LEN)
}

/// The nonce of a ciphertext: its last `NONCE_LEN` bytes.
pub open spec fn nonce_part(ciphertext: Seq<u8>) -> Seq<u8> {
    ciphertext.subrange(ciphertext.len() - NONCE_LEN, ciphertext.len() as int)
}

/// Whether a ciphertext has room for a nonce and a sealed part that the cipher
/// accepts.
pub open spec fn well_framed(ciphertext: Seq<u8>) -> bool {
    NONCE_LEN <= ciphertext.len() <= MAX_PLAINTEXT_LEN + SEAL_OVERHEAD + NONCE_LEN
}

/// The plaintext that `ciphertext` holds under `key`, or `None` where it is
/// badly framed or fails authentication.
pub open spec fn plaintext_of(ciphertext: Seq<u8>, key: Seq<u8>) -> Option<Seq<u8>> {
    if well_framed(ciphertext) {
        aes256_gcm_opened(key, nonce_part(ciphertext), sealed_part(ciphertext))
    } else {
        None
    }
}

/// Takes the nonce from the head of an HMAC tag.
pub fn nonce_from_tag(tag: &[u8]) -> (nonce: Vec<u8>)
    requires
        tag@.len() >= NONCE_LEN,
    ensures
        nonce@ == tag@.subrange(0, NONCE_LEN as int),
{
    let mut nonce: Vec<u8> = Vec::new();
    let mut i: usize = 0;
    while i < NONCE_LEN
        invariant
            i <= NONCE_LEN,
            tag@.len() >= NONCE_LEN,
            nonce@ == tag@.subrange(0, i as int),
        decreases NONCE_LEN - i,
    {
        nonce.push(tag[i]);
        i += 1;
    }
    nonce
}

/// Appends the nonce to the sealed bytes.
pub fn attach_nonce(sealed: Vec<u8>, nonce: &[u8]) -> (ciphertext: Vec<u8>)
    ensures
        ciphertext@ == sealed@ + nonce@,
{
    let mut ciphertext = sealed;
    ciphertext.extend_from_slice(nonce);
    ciphertext
}

/// Splits a ciphertext into its sealed part and its nonce.
///
/// `None` where the ciphertext is shorter than a nonce, or its sealed part is
/// longer than anything the cipher produces.
pub fn split_nonce(ciphertext: &[u8]) -> (parts: Option<(&[u8], &[u8])>)
    ensures
        parts is Some <==> well_framed(ciphertext@),
        parts matches Some((sealed, nonce)) ==> sealed@ == sealed_part(ciphertext@) && nonce@
            == nonce_part(ciphertext@),
{
    let len = ciphertext.len();
    if len < NONCE_LEN {
        return None;
    }
    if (len - NONCE_LEN) as u64 > MAX_PLAINTEXT_LEN + SEAL_OVERHEAD as u64 {
        return None;
    }
    let (sealed, nonce) = ciphertext.split_at(len - NONCE_LEN);
    Some((sealed, nonce))
}

/// Encrypts `msg` under a key of the right length.
pub(crate) fn encipher(msg: &[u8], key: &[u8]) -> (ciphertext: Vec<u8>)
    requires
        key@.len() == KEY_LEN,
        msg@.len() <= MAX_PLAINTEXT_LEN,
    ensures
        ciphertext@ == ciphertext_of(msg@, key@),
        ciphertext@.len() == msg@.len() + SEAL_OVERHEAD + NONCE_LEN,
        plaintext_of(ciphertext@, key@) == Some(msg@),
{
    let tag = sign(key, msg);
    let nonce = nonce_from_tag(tag.as_slice());
    let sealed = seal(key, nonce.as_slice(), msg);
    let ciphertext = attach_nonce(sealed, nonce.as_slice());
    proof {
        assert(sealed_part(ciphertext@) == sealed@);
        assert(nonce_part(ciphertext@) == nonce@);
    }
    ciphertext
}

/// Encrypts `msg` under `key`, deterministically.
///
/// A key that is not 256 bits long is refused. Under any other key the
/// result is a function of the two arguments alone, so two calls on equal
/// inputs give equal ciphertexts; and it decrypts to `msg` under the same key.
pub fn encrypt(msg: &[u8], key: &[u8]) -> (r: Result<Vec<u8>, ConfigurationError>)
    requires
        msg@.len() <= MAX_PLAINTEXT_LEN,
    ensures
        match r {
            Ok(ciphertext) => {
                &&& key@.len() == KEY_LEN
                &&& ciphertext@ == ciphertext_of(msg@, key@)
                &&& ciphertext@.len() == msg@.len() + SEAL_OVERHEAD + NONCE_LEN
                &&& plaintext_of(ciphertext@, key@) == Some(msg@)
            },
            Err(error) => key@.len() != KEY_LEN && error == ConfigurationError::WrongKeyLength,
        },
{
    if key.len() != KEY_LEN {
        return Err(ConfigurationError::WrongKeyLength);
    }
    Ok(encipher(msg, key))
}

/// Decrypts a ciphertext made by [`encrypt`] under the same key.
///
/// A key that is not 256 bits long is refused. Under any other key,
/// decryption fails on a truncated or over-long input and on any tag
/// mismatch, always with the one error.
pub fn decrypt(ciphertext: &[u8], key: &[u8]) -> (r: Result<Vec<u8>, DecryptError>)
    ensures
        match r {
            Ok(msg) => key@.len() == KEY_LEN && plaintext_of(ciphertext@, key@) == Some(msg@),
            Err(DecryptError::Configuration(error)) => key@.len() != KEY_LEN && error
                == ConfigurationError::WrongKeyLength,
            Err(DecryptError::AuthenticationFailed) => key@.len() == KEY_LEN && plaintext_of(
                ciphertext@,
                key@,
            ) is None,
        },
        key@.len() == KEY_LEN && ciphertext@.len() < NONCE_LEN + SEAL_OVERHEAD ==> r == Err::<
            Vec<u8>,
            DecryptError,
        >(DecryptError::AuthenticationFailed),
{
    if key.len() != KEY_LEN {
        return Err(DecryptError::Configuration(ConfigurationError::WrongKeyLength));
    }
    match split_nonce(ciphertext) {
        None => Err(DecryptError::AuthenticationFailed),
        Some((sealed, nonce)) => match unseal(key, nonce, sealed) {
            Ok(msg) => Ok(msg),
            Err(_) => Err(DecryptError::AuthenticationFailed),
        },
    }
}

} // verus!
