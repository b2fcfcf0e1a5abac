use ut_verification::token::{
    attach_tag, char_is_url_safe, check_fits_wire_format, check_tags_fit, check_url_safe,
    decode_token, encode_token, open_payload, seal_payload, split_tag, VerifiedClaims,
};

fn sample_claims() -> VerifiedClaims {
    VerifiedClaims {
        encrypted_eid: vec![1, 2, 3, 200, 255],
        major: vec!["Computer Science".to_string()],
        school: vec!["Engineering".to_string()],
        affiliation: vec!["student".to_string()],
    }
}

#[test]
fn issue_then_redeem_gives_identical_claims() {
    let s1 = b"first shared secret";
    let s2 = b"second shared secret";
    let claims = sample_claims();
    let token = encode_token(&claims, s1).unwrap();
    assert_eq!(decode_token(&token, s1).unwrap(), claims);
    assert!(decode_token(&token, s2).is_err());
}

#[test]
fn token_has_the_documented_wire_format() {
    let claims = VerifiedClaims {
        encrypted_eid: vec![1, 200],
        major: vec!["cs".to_string()],
        school: vec![],
        affiliation: vec!["student".to_string()],
    };
    let key = b"k";
    let token = encode_token(&claims, key).unwrap();
    let raw = base64::decode_config(&token, base64::URL_SAFE_NO_PAD).unwrap();
    // array of four; [1, 200]; ["cs"]; []; ["student"]
    let payload: Vec<u8> = vec![
        0x94, 0x92, 0x01, 0xcc, 0xc8, 0x91, 0xa2, b'c', b's', 0x90, 0x91, 0xa7, b's', b't', b'u',
        b'd', b'e', b'n', b't',
    ];
    assert_eq!(&raw[..raw.len() - 32], &payload[..]);
    let key = ring::hmac::Key::new(ring::hmac::HMAC_SHA256, key);
    let tag = ring::hmac::sign(&key, &payload);
    assert_eq!(&raw[raw.len() - 32..], tag.as_ref());
    assert!(!token.contains('='));
    assert!(!token.contains('+'));
    assert!(!token.contains('/'));
}

#[test]
fn issue_is_deterministic() {
    let claims = sample_claims();
    assert_eq!(encode_token(&claims, b"secret"), encode_token(&claims, b"secret"));
}

#[test]
fn empty_claims_round_trip() {
    let claims =
        VerifiedClaims { encrypted_eid: vec![], major: vec![], school: vec![], affiliation: vec![] };
    let token = encode_token(&claims, b"secret").unwrap();
    assert_eq!(decode_token(&token, b"secret").unwrap(), claims);
}

#[test]
fn non_ascii_tags_round_trip() {
    let claims = VerifiedClaims {
        encrypted_eid: (0u8..=255).collect(),
        major: vec!["Física".to_string(), "数学".to_string(), String::new()],
        school: vec!["x".repeat(300)],
        affiliation: vec!["student".to_string(), "member".to_string()],
    };
    let token = encode_token(&claims, b"secret").unwrap();
    assert_eq!(decode_token(&token, b"secret").unwrap(), claims);
}

#[test]
fn every_single_bit_flip_is_rejected() {
    let key = b"shared";
    let token = encode_token(&sample_claims(), key).unwrap();
    let raw = base64::decode_config(&token, base64::URL_SAFE_NO_PAD).unwrap();
    for i in 0..raw.len() {
        for bit in 0..8 {
            let mut tampered = raw.clone();
            tampered[i] ^= 1 << bit;
            let forged = base64::encode_config(&tampered, base64::URL_SAFE_NO_PAD);
            assert!(decode_token(&forged, key).is_err(), "byte {} bit {}", i, bit);
        }
    }
}

#[test]
fn bad_alphabet_and_padding_are_rejected() {
    let key = b"shared";
    let token = encode_token(&sample_claims(), key).unwrap();
    assert!(decode_token(&format!("{}!", token), key).is_err());
    assert!(decode_token(&format!("{} ", token), key).is_err());
    assert!(decode_token("not a token", key).is_err());
    assert!(decode_token("", key).is_err());
}

#[test]
fn token_no_longer_than_a_tag_is_rejected() {
    let key = b"shared";
    for len in 0..=32usize {
        let token = base64::encode_config(vec![0u8; len], base64::URL_SAFE_NO_PAD);
        assert!(decode_token(&token, key).is_err(), "length {}", len);
    }
    // A bare tag of the empty payload is still no token.
    let hmac_key = ring::hmac::Key::new(ring::hmac::HMAC_SHA256, key);
    let tag = ring::hmac::sign(&hmac_key, b"");
    let token = base64::encode_config(tag.as_ref(), base64::URL_SAFE_NO_PAD);
    assert!(decode_token(&token, key).is_err());
    assert!(open_payload(&token, key).is_none());
}

#[test]
fn truncated_token_is_rejected() {
    let key = b"shared";
    let token = encode_token(&sample_claims(), key).unwrap();
    for len in 0..token.len() {
        assert!(decode_token(&token[..len], key).is_err(), "length {}", len);
    }
}

#[test]
fn signed_payload_that_is_not_claims_is_rejected() {
    let key = b"shared";
    let token = seal_payload(vec![0xc0], key).unwrap();
    assert_eq!(open_payload(&token, key).unwrap(), vec![0xc0]);
    assert!(decode_token(&token, key).is_err());
    // an array of three is not an array of four
    let token = seal_payload(vec![0x93, 0x90, 0x90, 0x90], key).unwrap();
    assert!(decode_token(&token, key).is_err());
}

#[test]
fn seal_then_open_gives_the_payload_back() {
    let key = b"shared";
    let payload = vec![9u8, 8, 7];
    let token = seal_payload(payload.clone(), key).unwrap();
    assert_eq!(open_payload(&token, key).unwrap(), payload);
    assert!(open_payload(&token, b"other").is_none());
}

#[test]
fn attach_and_split_tag() {
    let tag = [7u8; 32];
    let data = attach_tag(vec![1, 2, 3], &tag);
    assert_eq!(data.len(), 35);
    let (payload, found) = split_tag(&data).unwrap();
    assert_eq!(payload, &[1u8, 2, 3][..]);
    assert_eq!(found, &tag[..]);
    assert!(split_tag(&tag).is_none());
    assert!(split_tag(&[]).is_none());
    let (payload, _) = split_tag(&[0u8; 33]).unwrap();
    assert_eq!(payload.len(), 1);
}

#[test]
fn ordinary_claims_fit_the_wire_format() {
    assert!(check_fits_wire_format(&sample_claims()));
    assert!(check_tags_fit(&vec![]));
    assert!(check_tags_fit(&vec!["a".to_string(), "b".to_string()]));
}

#[test]
fn padded_token_is_rejected() {
    let key = b"shared";
    // payloads of one, two and three bytes make signed data that needs two,
    // one and no padding characters
    for payload in [vec![0xc0u8], vec![0xc0, 0xc0], vec![0xc0, 0xc0, 0xc0]] {
        let token = seal_payload(payload.clone(), key).unwrap();
        assert!(!token.contains('='));
        assert_eq!(open_payload(&token, key).unwrap(), payload);
        let pad = (4 - token.len() % 4) % 4;
        let padded = format!("{}{}", token, "=".repeat(pad));
        if pad > 0 {
            // the decoder itself would take the padded text
            assert!(base64::decode_config(&padded, base64::URL_SAFE_NO_PAD).is_ok());
            assert!(open_payload(&padded, key).is_none());
        }
        assert!(open_payload(&format!("{}=", token), key).is_none());
    }
    let token = encode_token(&sample_claims(), key).unwrap();
    let pad = (4 - token.len() % 4) % 4;
    let padded = format!("{}{}", token, "=".repeat(pad.max(1)));
    assert!(decode_token(&padded, key).is_err());
    assert!(decode_token(&token, key).is_ok());
}

#[test]
fn token_is_written_in_the_url_safe_alphabet() {
    let token = encode_token(&sample_claims(), b"S1").unwrap();
    assert!(check_url_safe(&token));
    assert!(token.chars().all(|c| c.is_ascii_alphanumeric() || c == '-' || c == '_'));
    let raw = base64::decode_config(&token, base64::URL_SAFE_NO_PAD).unwrap();
    assert!(raw.len() > 32);
}

#[test]
fn url_safe_alphabet() {
    for c in 0u8..=255 {
        let c = c as char;
        let expected = c.is_ascii_alphanumeric() || c == '-' || c == '_';
        assert_eq!(char_is_url_safe(c), expected, "{:?}", c);
    }
    assert!(check_url_safe(""));
    assert!(check_url_safe("AZaz09-_"));
    assert!(!check_url_safe("abc="));
    assert!(!check_url_safe("ab+c"));
    assert!(!check_url_safe("ab/c"));
    assert!(!check_url_safe("ab c"));
    assert!(!check_url_safe("ab\u{e9}"));
}

#[test]
fn scenario_token_is_issued_and_redeemed() {
    let claims = VerifiedClaims {
        encrypted_eid: vec![1, 2, 3],
        major: vec!["Computer Science".to_string()],
        school: vec!["Engineering".to_string()],
        affiliation: vec!["student".to_string()],
    };
    let token = encode_token(&claims, b"S1").unwrap();
    assert_eq!(decode_token(&token, b"S1").unwrap(), claims);
    assert!(decode_token(&token, b"S2").is_err());
    assert_eq!(encode_token(&claims, b"S1").unwrap(), token);
}
