use ut_verification::cipher::encrypt;
use ut_verification::config::Keys;
use ut_verification::directory::{
    Attribute, DirectoryEntry, LookupError, AFFILIATION_ATTRIBUTE, EID_ATTRIBUTE, MAJOR_ATTRIBUTE,
    NAME_ATTRIBUTE, SCHOOL_ATTRIBUTE,
};
use ut_verification::refresh::{identity_from, refresh_identity, reissue, RefreshError, Reissue};
use ut_verification::token::{decode_token, encode_token, VerifiedClaims};

fn keys() -> Keys {
    Keys::new(vec![3u8; 32], b"shared secret".to_vec()).unwrap()
}

fn attr(name: &str, values: &[&str]) -> Attribute {
    Attribute { name: name.to_string(), values: values.iter().map(|v| v.to_string()).collect() }
}

fn entry(eid: &str, major: &str) -> DirectoryEntry {
    DirectoryEntry {
        attrs: vec![
            attr(EID_ATTRIBUTE, &[eid]),
            attr(MAJOR_ATTRIBUTE, &[major]),
            attr(SCHOOL_ATTRIBUTE, &["Engineering"]),
            attr(AFFILIATION_ATTRIBUTE, &["student"]),
            attr(NAME_ATTRIBUTE, &["Ada Lovelace"]),
        ],
    }
}

fn claims_for(eid: &[u8], keys: &Keys) -> VerifiedClaims {
    VerifiedClaims {
        encrypted_eid: encrypt(eid, keys.encryption_key()).unwrap(),
        major: vec!["Old Major".to_string()],
        school: vec![],
        affiliation: vec![],
    }
}

#[test]
fn token_leads_back_to_its_identifier() {
    let keys = keys();
    let token = encode_token(&claims_for(b"bha366", &keys), keys.shared_key()).unwrap();
    assert_eq!(refresh_identity(&token, &keys), Ok("bha366".to_string()));
}

#[test]
fn bad_token_is_refused() {
    let keys = keys();
    let token = encode_token(&claims_for(b"bha366", &keys), b"another secret").unwrap();
    assert_eq!(refresh_identity(&token, &keys), Err(RefreshError::BadToken));
    assert_eq!(refresh_identity("", &keys), Err(RefreshError::BadToken));
    assert_eq!(refresh_identity("garbage", &keys), Err(RefreshError::BadToken));
}

#[test]
fn bad_encrypted_identifier_is_refused() {
    let keys = keys();
    let mut claims = claims_for(b"bha366", &keys);
    claims.encrypted_eid[0] ^= 1;
    let token = encode_token(&claims, keys.shared_key()).unwrap();
    assert_eq!(refresh_identity(&token, &keys), Err(RefreshError::BadEncryptedEid));

    let mut claims = claims_for(b"bha366", &keys);
    claims.encrypted_eid = encrypt(b"bha366", &[4u8; 32]).unwrap();
    let token = encode_token(&claims, keys.shared_key()).unwrap();
    assert_eq!(refresh_identity(&token, &keys), Err(RefreshError::BadEncryptedEid));

    claims.encrypted_eid = vec![];
    let token = encode_token(&claims, keys.shared_key()).unwrap();
    assert_eq!(refresh_identity(&token, &keys), Err(RefreshError::BadEncryptedEid));
}

#[test]
fn identifier_that_is_no_text_is_refused() {
    let keys = keys();
    let token = encode_token(&claims_for(&[0xff, 0xfe], &keys), keys.shared_key()).unwrap();
    assert_eq!(refresh_identity(&token, &keys), Err(RefreshError::BadEncryptedEid));
    assert_eq!(identity_from(vec![0xc3, 0x28]), Err(RefreshError::BadEncryptedEid));
    assert_eq!(identity_from("J\u{fc}rgen".as_bytes().to_vec()), Ok("J\u{fc}rgen".to_string()));
    assert_eq!(identity_from(vec![]), Ok(String::new()));
}

#[test]
fn reissue_carries_what_the_directory_says_now() {
    let keys = keys();
    let old = encode_token(&claims_for(b"bha366", &keys), keys.shared_key()).unwrap();
    let eid = refresh_identity(&old, &keys).unwrap();
    let fresh = match reissue(&[entry("bha366", "New Major")], &eid, &keys) {
        Reissue::Done(fresh) => fresh,
        other => panic!("{:?}", other),
    };
    assert_eq!(fresh.claims.major, vec!["New Major".to_string()]);
    assert_eq!(decode_token(&fresh.token, keys.shared_key()).unwrap(), fresh.claims);
    assert_ne!(fresh.token, old);
    assert_eq!(refresh_identity(&fresh.token, &keys), Ok("bha366".to_string()));
}

#[test]
fn reissue_for_somebody_who_left_is_rejected() {
    let keys = keys();
    assert_eq!(
        reissue(&[entry("no3969", "x")], "bha366", &keys),
        Reissue::Rejected(LookupError::NotFound)
    );
    let mut incomplete = entry("bha366", "x");
    incomplete.attrs.pop();
    assert_eq!(
        reissue(&[incomplete], "bha366", &keys),
        Reissue::Rejected(LookupError::MissingDirectoryInfo("name"))
    );
}
