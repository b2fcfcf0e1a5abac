use ut_verification::cipher::{
    attach_nonce, decrypt, encrypt, nonce_from_tag, split_nonce, DecryptError, NONCE_LEN,
    SEAL_OVERHEAD,
};
use ut_verification::config::ConfigurationError;

#[test]
fn with_random_msg() {
    let key: [u8; 32] = rand::random();

    for _ in 0..10 {
        let msg: [u8; 7] = rand::random();
        let encrypted = encrypt(&msg, &key).unwrap();

        let decrypted = decrypt(&*encrypted, &key).unwrap();

        assert_eq!(msg, &*decrypted);
    }
}

#[test]
fn encrypt_is_deterministic() {
    let key = [7u8; 32];
    let first = encrypt(b"bha366", &key).unwrap();
    let second = encrypt(b"bha366", &key).unwrap();
    assert_eq!(first, second);
}

#[test]
fn ciphertext_is_plaintext_plus_tag_plus_nonce() {
    let key = [1u8; 32];
    let msg = b"no3969";
    let encrypted = encrypt(msg, &key).unwrap();
    assert_eq!(encrypted.len(), msg.len() + SEAL_OVERHEAD + NONCE_LEN);
    assert_eq!(encrypted.len(), 34);
    assert_ne!(&encrypted[..msg.len()], &msg[..]);
}

#[test]
fn known_answer_for_fixed_key_and_message() {
    // AES-256-GCM under an all-zero key, with the nonce taken from the
    // HMAC-SHA256 of the message under that key.
    let key = [0u8; 32];
    let encrypted = encrypt(b"", &key).unwrap();
    // HMAC-SHA256(key = 32 zero bytes, message = "") starts with b613679a0814d9ec772f95d7.
    assert_eq!(
        &encrypted[SEAL_OVERHEAD..],
        &[0xb6, 0x13, 0x67, 0x9a, 0x08, 0x14, 0xd9, 0xec, 0x77, 0x2f, 0x95, 0xd7]
    );
    assert_eq!(encrypted.len(), 28);
    assert_eq!(decrypt(&encrypted, &key).unwrap(), Vec::<u8>::new());
}

#[test]
fn different_keys_give_different_ciphertexts() {
    let one = encrypt(b"bha366", &[1u8; 32]).unwrap();
    let two = encrypt(b"bha366", &[2u8; 32]).unwrap();
    assert_ne!(one, two);
}

#[test]
fn different_messages_give_different_ciphertexts() {
    let key = [9u8; 32];
    assert_ne!(encrypt(b"bha366", &key).unwrap(), encrypt(b"bha367", &key).unwrap());
}

#[test]
fn decrypt_under_another_key_fails() {
    let encrypted = encrypt(b"bha366", &[1u8; 32]).unwrap();
    assert!(decrypt(&encrypted, &[2u8; 32]).is_err());
}

#[test]
fn decrypt_rejects_truncated_input() {
    let key = [3u8; 32];
    let encrypted = encrypt(b"bha366", &key).unwrap();
    for len in 0..encrypted.len() {
        assert!(decrypt(&encrypted[..len], &key).is_err(), "length {}", len);
    }
    assert!(decrypt(&[], &key).is_err());
    assert!(decrypt(&[0u8; 11], &key).is_err());
    assert!(decrypt(&[0u8; 12], &key).is_err());
    assert!(decrypt(&[0u8; 27], &key).is_err());
}

#[test]
fn decrypt_rejects_every_single_bit_flip() {
    let key = [4u8; 32];
    let encrypted = encrypt(b"bha366", &key).unwrap();
    for i in 0..encrypted.len() {
        for bit in 0..8 {
            let mut tampered = encrypted.clone();
            tampered[i] ^= 1 << bit;
            assert!(decrypt(&tampered, &key).is_err(), "byte {} bit {}", i, bit);
        }
    }
}

#[test]
fn nonce_is_the_head_of_the_tag() {
    let tag: Vec<u8> = (0u8..32).collect();
    assert_eq!(nonce_from_tag(&tag), (0u8..12).collect::<Vec<u8>>());
}

#[test]
fn attach_then_split_gives_the_parts_back() {
    let sealed = vec![1u8, 2, 3, 4];
    let nonce = [9u8; 12];
    let whole = attach_nonce(sealed.clone(), &nonce);
    assert_eq!(whole.len(), 16);
    let (head, tail) = split_nonce(&whole).unwrap();
    assert_eq!(head, &sealed[..]);
    assert_eq!(tail, &nonce[..]);
}

#[test]
fn split_nonce_refuses_less_than_a_nonce() {
    assert!(split_nonce(&[0u8; 11]).is_none());
    let (head, tail) = split_nonce(&[5u8; 12]).unwrap();
    assert!(head.is_empty());
    assert_eq!(tail, &[5u8; 12][..]);
}

#[test]
fn key_of_the_wrong_length_is_a_configuration_error() {
    for len in [0usize, 1, 16, 31, 33, 64] {
        let key = vec![0u8; len];
        assert_eq!(encrypt(b"bha366", &key), Err(ConfigurationError::WrongKeyLength));
        assert_eq!(
            decrypt(&[0u8; 40], &key),
            Err(DecryptError::Configuration(ConfigurationError::WrongKeyLength))
        );
    }
}

#[test]
fn failed_authentication_is_told_from_a_wrong_key_length() {
    let key = [3u8; 32];
    let mut encrypted = encrypt(b"bha366", &key).unwrap();
    encrypted[0] ^= 1;
    assert_eq!(decrypt(&encrypted, &key), Err(DecryptError::AuthenticationFailed));
    assert_eq!(decrypt(&[], &key), Err(DecryptError::AuthenticationFailed));
}
