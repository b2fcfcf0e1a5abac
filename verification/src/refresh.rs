//! Refreshing a token.
//!
//! A token's attribute claims are never trusted for anything but finding the
//! way back to the directory: the token is redeemed, its encrypted identifier
//! is decrypted, the identifier is looked up afresh, and a new token is
//! issued from what the directory says now.

use vstd::prelude::*;
use vstd::utf8::{decode_utf8, valid_utf8};
use crate::cipher::{decrypt, plaintext_of};
use crate::config::Keys;
use crate::directory::{
    agrees, entries_view, resolution, DirectoryEntry, LookupError, Person, Resolution,
};
use crate::token::{claims_of, decode_token, encode_token, issuable, token_of, VerifiedClaims};

verus! {

/// Why a token does not lead back to an identifier.
#[derive(Debug, Clone, Copy, PartialEq, Eq)]
pub enum RefreshError {
    /// The token is not valid under the shared key.
    BadToken,
    /// The encrypted identifier in the token does not decrypt to a text under
    /// the encryption key.
    BadEncryptedEid,
}

/// Calls `String::from_utf8`.
///
/// Trusted: it gives the text that the bytes encode where they are valid
/// UTF-8, and an error where they are not.
#[verifier::external_body]
fn text_from_utf8(bytes: Vec<u8>) -> (r: Option<String>)
    ensures
        match r {
            Some(text) => valid_utf8(bytes@) && text@ == decode_utf8(bytes@),
            None => !valid_utf8(bytes@),
        },
{
    String::from_utf8(bytes).ok()
}

/// The identifier that a token leads back to under the two keys.
pub open spec fn identity_of(token: Seq<char>, encryption_key: Seq<u8>, shared_key: Seq<u8>) -> Result<
    Seq<char>,
    RefreshError,
> {
    match claims_of(token, shared_key) {
        None => Err(RefreshError::BadToken),
        Some(claims) => match plaintext_of(claims.encrypted_eid, encryption_key) {
            None => Err(RefreshError::BadEncryptedEid),
            Some(plain) => if valid_utf8(plain) {
                Ok(decode_utf8(plain))
            } else {
                Err(RefreshError::BadEncryptedEid)
            },
        },
    }
}

/// Reads decrypted bytes as an identifier.
pub fn identity_from(plain: Vec<u8>) -> (r: Result<String, RefreshError>)
    ensures
        match r {
            Ok(eid) => valid_utf8(plain@) && eid@ == decode_utf8(plain@),
            Err(e) => !valid_utf8(plain@) && e == RefreshError::BadEncryptedEid,
        },
{
    match text_from_utf8(plain) {
        Some(eid) => Ok(eid),
        None => Err(RefreshError::BadEncryptedEid),
    }
}

/// Finds the identifier that a token was issued for.
pub fn refresh_identity(token: &str, keys: &Keys) -> (r: Result<String, RefreshError>)
    ensures
        match r {
            Ok(eid) => identity_of(token@, keys@.encryption_key, keys@.shared_key) == Ok::<
                Seq<char>,
                RefreshError,
            >(eid@),
            Err(e) => identity_of(token@, keys@.encryption_key, keys@.shared_key) == Err::<
                Seq<char>,
                RefreshError,
            >(e),
        },
{
    let claims = match decode_token(token, keys.shared_key()) {
        Ok(claims) => claims,
        Err(_) => { return Err(RefreshError::BadToken); },
    };
    match decrypt(claims.encrypted_eid.as_slice(), keys.encryption_key()) {
        Ok(plain) => identity_from(plain),
        Err(_) => Err(RefreshError::BadEncryptedEid),
    }
}

/// A fresh token together with the claims it carries.
#[derive(Debug, Clone, PartialEq, Eq)]
pub struct Refreshed {
    pub token: String,
    pub claims: VerifiedClaims,
}

/// What became of issuing afresh.
#[derive(Debug, Clone, PartialEq, Eq)]
pub enum Reissue {
    /// A fresh token was issued.
    Done(Refreshed),
    /// The identifier could not be resolved any more.
    Rejected(LookupError),
    /// The person was found, but no token could be issued for the claims.
    Unissued,
}

/// Whether `outcome` is what issuing afresh for `eid` comes to, given the
/// records that the search gave: a fresh token with the claims of the person
/// found wherever a token is owed for them, the lookup's error where the
/// lookup fails.
pub open spec fn reissued(
    outcome: Reissue,
    entries: Seq<Seq<(Seq<char>, Seq<Seq<char>>)>>,
    eid: Seq<char>,
    encryption_key: Seq<u8>,
    shared_key: Seq<u8>,
) -> bool {
    let resolved = resolution(entries, eid, encryption_key);
    match outcome {
        Reissue::Done(fresh) => resolved matches Resolution::Found(person) && issuable(
            person.claims,
            shared_key,
        ) && fresh.claims@ == person.claims && fresh.token@ == token_of(person.claims, shared_key)
            && claims_of(fresh.token@, shared_key) == Some(person.claims),
        Reissue::Rejected(error) => agrees(Err(error), resolved),
        Reissue::Unissued => resolved matches Resolution::Found(person) && !issuable(
            person.claims,
            shared_key,
        ),
    }
}

/// Issues a fresh token for `eid` from the records that a new directory
/// search gave.
pub fn reissue(entries: &[DirectoryEntry], eid: &str, keys: &Keys) -> (outcome: Reissue)
    ensures
        reissued(outcome, entries_view(entries@), eid@, keys@.encryption_key, keys@.shared_key),
{
    match Person::lookup(entries, eid, keys) {
        Ok(person) => match encode_token(&person.claims, keys.shared_key()) {
            Some(token) => Reissue::Done(Refreshed { token, claims: person.claims }),
            None => Reissue::Unissued,
        },
        Err(error) => Reissue::Rejected(error),
    }
}

} // verus!
