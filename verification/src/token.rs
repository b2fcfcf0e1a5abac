//! Signed tokens that carry a claims envelope.
//!
//! A token is the unpadded URL-safe base64 of the serialized claims followed
//! by the HMAC-SHA256 tag of those serialized bytes under the shared secret.
//! Redeeming a token undoes each step and fails, always in the same way, as
//! soon as one of them does not hold.

use vstd::prelude::*;
use vstd::utf8::encode_utf8;
use crate::mac::{hmac_sha256, sign, verify, MAX_MAC_INPUT, TAG_LEN};

verus! {

/// What a directory record says of one person, bound to the encrypted form of
/// that person's identifier. The plaintext identifier is never part of it.
#[derive(Debug, Clone, PartialEq, Eq)]
pub struct VerifiedClaims {
    pub encrypted_eid: Vec<u8>,
    pub major: Vec<String>,
    pub school: Vec<String>,
    pub affiliation: Vec<String>,
}

/// The mathematical content of a [`VerifiedClaims`].
pub struct ClaimsView {
    pub encrypted_eid: Seq<u8>,
    pub major: Seq<Seq<char>>,
    pub school: Seq<Seq<char>>,
    pub affiliation: Seq<Seq<char>>,
}

/// The texts of a list of tags, in order.
pub open spec fn tags_view(tags: Seq<String>) -> Seq<Seq<char>> {
    Seq::new(tags.len(), |i: int| tags[i]@)
}

impl View for VerifiedClaims {
    type V = ClaimsView;

    open spec fn view(&self) -> ClaimsView {
        ClaimsView {
            encrypted_eid: self.encrypted_eid@,
            major: tags_view(self.major@),
            school: tags_view(self.school@),
            affiliation: tags_view(self.affiliation@),
        }
    }
}

/// The one outcome of every failed redemption: bad encoding, truncation, a
/// wrong signature and a malformed payload are not told apart.
#[derive(Debug, Clone, Copy, PartialEq, Eq)]
pub struct InvalidToken;

/// The compact MessagePack form of a claims envelope: what `rmp_serde::to_vec`
/// writes for the four fields in order, as one array.
pub uninterp spec fn msgpack_encoding(claims: ClaimsView) -> Seq<u8>;

/// The claims that `rmp_serde::from_read` reads from `bytes`, or `None` where it
/// reports an error.
pub uninterp spec fn msgpack_decoding(bytes: Seq<u8>) -> Option<ClaimsView>;

/// The unpadded URL-safe base64 text of `data`: what `base64::encode_config`
/// returns with `URL_SAFE_NO_PAD`.
pub uninterp spec fn base64url_encoding(data: Seq<u8>) -> Seq<char>;

/// The bytes that `base64::decode_config` reads from `text` with
/// `URL_SAFE_NO_PAD`, or `None` where it reports an error.
pub uninterp spec fn base64url_decoding(text: Seq<char>) -> Option<Seq<u8>>;

/// Whether a text's UTF-8 form is short enough for a MessagePack length header.
pub open spec fn text_fits(text: Seq<char>) -> bool {
    encode_utf8(text).len() <= u32::MAX
}

/// Whether a list of tags, and each tag in it, is short enough for a
/// MessagePack length header.
pub open spec fn tags_fit(tags: Seq<Seq<char>>) -> bool {
    &&& tags.len() <= u32::MAX
    &&& forall|i: int| 0 <= i < tags.len() ==> text_fits(#[trigger] tags[i])
}

/// Whether every length in the claims can be written in the wire format.
/// Claims beyond this would be written with a truncated length and could not
/// be read back.
pub open spec fn fits_wire_format(claims: ClaimsView) -> bool {
    &&& claims.encrypted_eid.len() <= u32::MAX
    &&& tags_fit(claims.major)
    &&& tags_fit(claims.school)
    &&& tags_fit(claims.affiliation)
}

/// Calls `rmp_serde::to_vec` on the four fields as one tuple, which it writes
/// as it writes a struct of those fields: an array of four.
///
/// Trusted: the bytes are the compact MessagePack form of the claims, at
/// least the array header long, and `rmp_serde::from_read` gives the same
/// claims back. Every length must fit a 32-bit header, since a longer one is
/// written cut short. Writing into a vector, the serializer reports an error
/// only where memory for the vector's growth cannot be had; like any other
/// growth of a vector, that ends the program.
#[verifier::external_body]
fn to_msgpack(claims: &VerifiedClaims) -> (bytes: Vec<u8>)
    requires
        fits_wire_format(claims@),
    ensures
        bytes@ == msgpack_encoding(claims@),
        bytes@.len() > 0,
        msgpack_decoding(bytes@) == Some(claims@),
{
    let fields = (&claims.encrypted_eid, &claims.major, &claims.school, &claims.affiliation);
    rmp_serde::to_vec(&fields).unwrap()
}

/// Calls `rmp_serde::from_read` for a tuple of the four fields.
///
/// Trusted: the result depends on the bytes alone.
#[verifier::external_body]
fn from_msgpack(bytes: &[u8]) -> (r: Option<VerifiedClaims>)
    ensures
        match r {
            Some(claims) => msgpack_decoding(bytes@) == Some(claims@),
            None => msgpack_decoding(bytes@) is None,
        },
{
    let read = rmp_serde::from_read::<_, (Vec<u8>, Vec<String>, Vec<String>, Vec<String>)>(bytes);
    read.ok().map(|f| VerifiedClaims { encrypted_eid: f.0, major: f.1, school: f.2, affiliation: f.3 })
}

/// Calls `base64::encode_config` with `URL_SAFE_NO_PAD`.
///
/// Trusted: the text is the unpadded URL-safe base64 of `data`, written in
/// the sixty-four characters of that alphabet alone, and
/// `base64::decode_config` reads `data` back from it.
#[verifier::external_body]
fn to_base64url(data: &[u8]) -> (text: String)
    ensures
        text@ == base64url_encoding(data@),
        url_safe(text@),
        base64url_decoding(text@) == Some(data@),
{
    base64::encode_config(data, base64::URL_SAFE_NO_PAD)
}

/// Calls `base64::decode_config` with `URL_SAFE_NO_PAD`.
///
/// Trusted: the result depends on the text alone.
#[verifier::external_body]
pub(crate) fn from_base64url(text: &str) -> (r: Option<Vec<u8>>)
    ensures
        match r {
            Some(data) => base64url_decoding(text@) == Some(data@),
            None => base64url_decoding(text@) is None,
        },
{
    base64::decode_config(text, base64::URL_SAFE_NO_PAD).ok()
}

/// Whether `c` belongs to the URL-safe base64 alphabet: a letter, a digit, a
/// hyphen or an underscore. The padding character does not.
pub open spec fn is_url_safe(c: char) -> bool {
    ||| 'A' <= c <= 'Z'
    ||| 'a' <= c <= 'z'
    ||| '0' <= c <= '9'
    ||| c == '-'
    ||| c == '_'
}

/// Whether a text is written in the URL-safe base64 alphabet alone, without
/// padding.
pub open spec fn url_safe(text: Seq<char>) -> bool {
    forall|i: int| 0 <= i < text.len() ==> is_url_safe(#[trigger] text[i])
}

/// The payload of signed data: all but its last `TAG_LEN` bytes.
pub open spec fn payload_part(data: Seq<u8>) -> Seq<u8> {
    data.subrange(0, data.len() - TAG_LEN)
}

/// The tag of signed data: its last `TAG_LEN` bytes.
pub open spec fn tag_part(data: Seq<u8>) -> Seq<u8> {
    data.subrange(data.len() - TAG_LEN, data.len() as int)
}

/// Whether signed data is strictly longer than a tag, with a payload that can
/// be signed.
pub open spec fn splits(data: Seq<u8>) -> bool {
    TAG_LEN < data.len() <= MAX_MAC_INPUT + TAG_LEN
}

/// A payload followed by its tag under `key`.
pub open spec fn signed(payload: Seq<u8>, key: Seq<u8>) -> Seq<u8> {
    payload + hmac_sha256(key, payload)
}

/// The token that carries `payload` under `key`.
pub open spec fn token_around(payload: Seq<u8>, key: Seq<u8>) -> Seq<char> {
    base64url_encoding(signed(payload, key))
}

/// The token that carries `claims` under `key`.
pub open spec fn token_of(claims: ClaimsView, key: Seq<u8>) -> Seq<char> {
    token_around(msgpack_encoding(claims), key)
}

/// Whether a key is short enough to sign with.
pub open spec fn signs(key: Seq<u8>) -> bool {
    key.len() <= MAX_MAC_INPUT
}

/// The bytes that a token stands for: what its text decodes to, or `None`
/// where the text holds a character from outside the alphabet, padding
/// included, or does not decode.
pub open spec fn signed_bytes_of(token: Seq<char>) -> Option<Seq<u8>> {
    if url_safe(token) {
        base64url_decoding(token)
    } else {
        None
    }
}

/// The payload that a token carries under `key`, or `None` where the token
/// does not decode, is too short or too long, or carries another tag, or the
/// key cannot be used.
pub open spec fn payload_of(token: Seq<char>, key: Seq<u8>) -> Option<Seq<u8>> {
    match signed_bytes_of(token) {
        None => None,
        Some(data) => if signs(key) && splits(data) && tag_part(data) == hmac_sha256(
            key,
            payload_part(data),
        ) {
            Some(payload_part(data))
        } else {
            None
        },
    }
}

/// Whether a token is owed for `claims` under `key`: every length of the
/// claims fits the wire format, and the serialized claims and the key are
/// short enough to sign with.
pub open spec fn issuable(claims: ClaimsView, key: Seq<u8>) -> bool {
    &&& fits_wire_format(claims)
    &&& msgpack_encoding(claims).len() <= MAX_MAC_INPUT
    &&& signs(key)
}

/// The claims that a token carries under `key`, or `None` where it is not a
/// valid token.
pub open spec fn claims_of(token: Seq<char>, key: Seq<u8>) -> Option<ClaimsView> {
    match payload_of(token, key) {
        None => None,
        Some(payload) => msgpack_decoding(payload),
    }
}

/// Whether a token decodes to no more bytes than a tag has.
pub open spec fn shorter_than_tag(token: Seq<char>) -> bool {
    base64url_decoding(token) matches Some(data) && data.len() <= TAG_LEN
}

/// Whether a character belongs to the URL-safe base64 alphabet.
pub fn char_is_url_safe(c: char) -> (r: bool)
    ensures
        r == is_url_safe(c),
{
    (c >= 'A' && c <= 'Z') || (c >= 'a' && c <= 'z') || (c >= '0' && c <= '9') || c == '-'
        || c == '_'
}

/// Whether a text is written in the URL-safe base64 alphabet alone.
pub fn check_url_safe(text: &str) -> (ok: bool)
    ensures
        ok == url_safe(text@),
{
    for c in it: text.chars()
        invariant
            it.seq() == text@,
            forall|j: int| 0 <= j < it.index() ==> is_url_safe(#[trigger] text@[j]),
    {
        if !char_is_url_safe(c) {
            return false;
        }
    }
    true
}

/// Appends a tag to a payload.
pub fn attach_tag(payload: Vec<u8>, tag: &[u8]) -> (data: Vec<u8>)
    ensures
        data@ == payload@ + tag@,
{
    let mut data = payload;
    data.extend_from_slice(tag);
    data
}

/// Splits signed data into payload and tag.
///
/// `None` unless the data is strictly longer than a tag and the payload is short
/// enough to be signed.
pub fn split_tag(data: &[u8]) -> (parts: Option<(&[u8], &[u8])>)
    ensures
        parts is Some <==> splits(data@),
        parts matches Some((payload, tag)) ==> payload@ == payload_part(data@) && tag@
            == tag_part(data@),
{
    let len = data.len();
    if len <= TAG_LEN {
        return None;
    }
    if (len - TAG_LEN) as u64 > MAX_MAC_INPUT {
        return None;
    }
    let (payload, tag) = data.split_at(len - TAG_LEN);
    Some((payload, tag))
}

/// Whether each tag of a list, and the list itself, fits a 32-bit length.
pub fn check_tags_fit(tags: &Vec<String>) -> (ok: bool)
    ensures
        ok == tags_fit(tags_view(tags@)),
{
    if tags.len() as u64 > u32::MAX as u64 {
        return false;
    }
    let mut i: usize = 0;
    while i < tags.len()
        invariant
            i <= tags.len(),
            tags.len() <= u32::MAX,
            forall|j: int| 0 <= j < i ==> text_fits(#[trigger] tags_view(tags@)[j]),
        decreases tags.len() - i,
    {
        let bytes = tags[i].as_str().as_bytes();
        assert(bytes@ == encode_utf8(tags_view(tags@)[i as int]));
        if bytes.len() as u64 > u32::MAX as u64 {
            return false;
        }
        i += 1;
    }
    true
}

/// Whether the claims can be written in the wire format.
pub fn check_fits_wire_format(claims: &VerifiedClaims) -> (ok: bool)
    ensures
        ok == fits_wire_format(claims@),
{
    claims.encrypted_eid.len() as u64 <= u32::MAX as u64 && check_tags_fit(&claims.major)
        && check_tags_fit(&claims.school) && check_tags_fit(&claims.affiliation)
}

/// Signs a serialized payload and encodes both as a token.
///
/// `None` exactly where the payload or the key is too long to sign with. A
/// token around a non-empty payload gives that payload back under the same
/// key.
pub fn seal_payload(payload: Vec<u8>, shared_key: &[u8]) -> (r: Option<String>)
    ensures
        r is Some <==> payload@.len() <= MAX_MAC_INPUT && signs(shared_key@),
        r matches Some(token) ==> {
            &&& token@ == token_around(payload@, shared_key@)
            &&& url_safe(token@)
            &&& payload@.len() > 0 ==> payload_of(token@, shared_key@) == Some(payload@)
        },
{
    if payload.len() as u64 > MAX_MAC_INPUT || shared_key.len() as u64 > MAX_MAC_INPUT {
        return None;
    }
    let tag = sign(shared_key, payload.as_slice());
    let ghost body = payload@;
    let data = attach_tag(payload, tag.as_slice());
    let token = to_base64url(data.as_slice());
    proof {
        assert(payload_part(data@) == body);
        assert(tag_part(data@) == tag@);
    }
    Some(token)
}

/// Decodes a token and checks its tag, in constant time, under `shared_key`.
///
/// Gives the payload that the tag covers, or `None` on any failure.
pub fn open_payload(token: &str, shared_key: &[u8]) -> (r: Option<Vec<u8>>)
    ensures
        match r {
            Some(payload) => payload_of(token@, shared_key@) == Some(payload@),
            None => payload_of(token@, shared_key@) is None,
        },
{
    if shared_key.len() as u64 > MAX_MAC_INPUT || !check_url_safe(token) {
        return None;
    }
    let data = match from_base64url(token) {
        None => { return None; },
        Some(data) => data,
    };
    match split_tag(data.as_slice()) {
        None => None,
        Some((payload, tag)) => {
            if verify(shared_key, payload, tag) {
                Some(vstd::slice::slice_to_vec(payload))
            } else {
                None
            }
        },
    }
}

/// Issues the token for `claims` under `shared_key`.
///
/// A token is issued exactly where every length of the claims fits the wire
/// format and the serialized claims and the key are short enough to sign
/// with. It is the one token that the wire format fixes for these claims and
/// this key, and redeeming it under the same key gives the claims back.
pub fn encode_token(claims: &VerifiedClaims, shared_key: &[u8]) -> (r: Option<String>)
    ensures
        r is Some <==> issuable(claims@, shared_key@),
        r matches Some(token) ==> {
            &&& token@ == token_of(claims@, shared_key@)
            &&& url_safe(token@)
            &&& claims_of(token@, shared_key@) == Some(claims@)
        },
{
    if !check_fits_wire_format(claims) {
        return None;
    }
    seal_payload(to_msgpack(claims), shared_key)
}

/// Redeems a token under `shared_key`.
///
/// Succeeds exactly on the tokens that are written in the alphabet alone,
/// without padding, decode to strictly more bytes than a tag has, carry the
/// tag of their payload under this key, and whose payload reads as claims.
/// Every failure is the one [`InvalidToken`].
pub fn decode_token(token: &str, shared_key: &[u8]) -> (r: Result<VerifiedClaims, InvalidToken>)
    ensures
        match r {
            Ok(claims) => claims_of(token@, shared_key@) == Some(claims@),
            Err(_) => claims_of(token@, shared_key@) is None,
        },
        shorter_than_tag(token@) ==> r is Err,
        !url_safe(token@) ==> r is Err,
{
    match open_payload(token, shared_key) {
        None => Err(InvalidToken),
        Some(payload) => match from_msgpack(payload.as_slice()) {
            None => Err(InvalidToken),
            Some(claims) => Ok(claims),
        },
    }
}

/// A token that decodes to no more bytes than a tag has carries nothing,
/// whatever the key.
pub proof fn lemma_short_token_carries_nothing(token: Seq<char>, key: Seq<u8>)
    requires
        shorter_than_tag(token),
    ensures
        payload_of(token, key) is None,
        claims_of(token, key) is None,
{
}

/// A token carries claims only if its last bytes are the tag, under the key,
/// of the bytes before them: change the tag, the payload or the key so that
/// they no longer agree, and the token carries nothing.
pub proof fn lemma_wrong_tag_carries_nothing(token: Seq<char>, key: Seq<u8>)
    requires
        base64url_decoding(token) matches Some(data) && tag_part(data) != hmac_sha256(
            key,
            payload_part(data),
        ),
    ensures
        payload_of(token, key) is None,
        claims_of(token, key) is None,
{
}

/// The claims of a token are read from exactly the bytes that its tag
/// covers.
pub proof fn lemma_claims_come_from_the_signed_bytes(token: Seq<char>, key: Seq<u8>)
    requires
        claims_of(token, key) is Some,
    ensures
        url_safe(token),
        base64url_decoding(token) matches Some(data) && {
            &&& data.len() > TAG_LEN
            &&& tag_part(data) == hmac_sha256(key, payload_part(data))
            &&& claims_of(token, key) == msgpack_decoding(payload_part(data))
        },
{
}

/// A token that holds a character from outside the alphabet carries
/// nothing: padding is refused like any other stray character.
pub proof fn lemma_stray_character_carries_nothing(token: Seq<char>, key: Seq<u8>, at: int)
    requires
        0 <= at < token.len(),
        !is_url_safe(token[at]),
    ensures
        payload_of(token, key) is None,
        claims_of(token, key) is None,
{
}

} // verus!
