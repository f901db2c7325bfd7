use drago::vault::{decrypt, encrypt, join_sealed, opened_text, parse_key, split_sealed, CryptoError};

const KEY: &str = "000102030405060708090a0b0c0d0e0f101112131415161718191A1B1C1D1E1F";

#[test]
fn parse_key_reads_both_cases_of_digits() {
    let key = parse_key(KEY).unwrap();
    let expected: Vec<u8> = (0u8..32).collect();
    assert_eq!(key, expected);
}

#[test]
fn parse_key_refuses_short_key() {
    assert_eq!(parse_key("0011").unwrap_err(), CryptoError::KeyMisconfigured);
}

#[test]
fn parse_key_refuses_odd_length() {
    let odd = &KEY[..63];
    assert_eq!(parse_key(odd).unwrap_err(), CryptoError::KeyMisconfigured);
}

#[test]
fn parse_key_refuses_other_characters() {
    let bad = format!("{}zz", &KEY[..62]);
    assert_eq!(parse_key(&bad).unwrap_err(), CryptoError::KeyMisconfigured);
}

#[test]
fn encrypt_then_decrypt_gives_the_secret_back() {
    let sealed = encrypt(KEY, "cf-token-abc123").unwrap();
    assert_eq!(sealed.nonce.len(), 12);
    assert_eq!(sealed.tag.len(), 16);
    assert_eq!(sealed.ciphertext.len(), "cf-token-abc123".len());
    assert_ne!(sealed.ciphertext, b"cf-token-abc123".to_vec());
    let opened = decrypt(KEY, &sealed.nonce, &sealed.ciphertext, &sealed.tag).unwrap();
    assert_eq!(opened, "cf-token-abc123");
}

#[test]
fn encrypt_then_decrypt_keeps_non_ascii_text() {
    let secret = "schlüssel-日本語-🔑";
    let sealed = encrypt(KEY, secret).unwrap();
    assert_eq!(sealed.ciphertext.len(), secret.len());
    let opened = decrypt(KEY, &sealed.nonce, &sealed.ciphertext, &sealed.tag).unwrap();
    assert_eq!(opened, secret);
}

#[test]
fn encrypt_then_decrypt_keeps_empty_secret() {
    let sealed = encrypt(KEY, "").unwrap();
    assert!(sealed.ciphertext.is_empty());
    assert_eq!(sealed.tag.len(), 16);
    assert_eq!(decrypt(KEY, &sealed.nonce, &sealed.ciphertext, &sealed.tag).unwrap(), "");
}

#[test]
fn encrypt_draws_a_new_nonce_each_time() {
    let a = encrypt(KEY, "same secret").unwrap();
    let b = encrypt(KEY, "same secret").unwrap();
    assert_ne!(a.nonce, b.nonce);
    assert_ne!(a.ciphertext, b.ciphertext);
}

#[test]
fn encrypt_matches_known_answer_for_fixed_nonce() {
    // The tag of the empty plaintext under the all-zero key and nonce.
    let zero_key = "0".repeat(64);
    let nonce = [0u8; 12];
    let tag: Vec<u8> = vec![
        0x53, 0x0f, 0x8a, 0xfb, 0xc7, 0x45, 0x36, 0xb9, 0xa9, 0x63, 0xb4, 0xf1, 0xc4, 0xcb, 0x73, 0x8b,
    ];
    assert_eq!(decrypt(&zero_key, &nonce, &[], &tag).unwrap(), "");
}

#[test]
fn decrypt_fails_when_any_ciphertext_bit_is_flipped() {
    let sealed = encrypt(KEY, "secret").unwrap();
    for i in 0..sealed.ciphertext.len() {
        for bit in 0..8 {
            let mut altered = sealed.ciphertext.clone();
            altered[i] ^= 1 << bit;
            let r = decrypt(KEY, &sealed.nonce, &altered, &sealed.tag);
            assert_eq!(r.unwrap_err(), CryptoError::DecryptionFailure);
        }
    }
}

#[test]
fn decrypt_fails_when_any_tag_bit_is_flipped() {
    let sealed = encrypt(KEY, "secret").unwrap();
    for i in 0..sealed.tag.len() {
        for bit in 0..8 {
            let mut altered = sealed.tag.clone();
            altered[i] ^= 1 << bit;
            let r = decrypt(KEY, &sealed.nonce, &sealed.ciphertext, &altered);
            assert_eq!(r.unwrap_err(), CryptoError::DecryptionFailure);
        }
    }
}

#[test]
fn decrypt_fails_under_another_nonce() {
    let sealed = encrypt(KEY, "secret").unwrap();
    let mut nonce = sealed.nonce.clone();
    nonce[0] ^= 0xff;
    let r = decrypt(KEY, &nonce, &sealed.ciphertext, &sealed.tag);
    assert_eq!(r.unwrap_err(), CryptoError::DecryptionFailure);
}

#[test]
fn decrypt_fails_under_another_key() {
    let sealed = encrypt(KEY, "secret").unwrap();
    let other = "ff".repeat(32);
    let r = decrypt(&other, &sealed.nonce, &sealed.ciphertext, &sealed.tag);
    assert_eq!(r.unwrap_err(), CryptoError::DecryptionFailure);
}

#[test]
fn decrypt_refuses_nonce_of_wrong_length() {
    let sealed = encrypt(KEY, "secret").unwrap();
    let r = decrypt(KEY, &sealed.nonce[..11], &sealed.ciphertext, &sealed.tag);
    assert_eq!(r.unwrap_err(), CryptoError::DecryptionFailure);
}

#[test]
fn decrypt_refuses_truncated_tag() {
    let sealed = encrypt(KEY, "secret").unwrap();
    let r = decrypt(KEY, &sealed.nonce, &sealed.ciphertext, &sealed.tag[..15]);
    assert_eq!(r.unwrap_err(), CryptoError::DecryptionFailure);
    let r = decrypt(KEY, &sealed.nonce, &[], &[]);
    assert_eq!(r.unwrap_err(), CryptoError::DecryptionFailure);
}

#[test]
fn encrypt_and_decrypt_refuse_bad_key() {
    assert_eq!(encrypt("not hex", "secret").unwrap_err(), CryptoError::KeyMisconfigured);
    assert_eq!(decrypt("abcd", &[0u8; 12], &[], &[0u8; 16]).unwrap_err(), CryptoError::KeyMisconfigured);
}

#[test]
fn sealed_bytes_are_split_before_the_tag() {
    let sealed: Vec<u8> = (0u8..20).collect();
    let parts = split_sealed(vec![9; 12], sealed).unwrap();
    assert_eq!(parts.nonce, vec![9; 12]);
    assert_eq!(parts.ciphertext, vec![0, 1, 2, 3]);
    assert_eq!(parts.tag, (4u8..20).collect::<Vec<u8>>());
    let only_tag = split_sealed(vec![], vec![7; 16]).unwrap();
    assert!(only_tag.ciphertext.is_empty());
    assert_eq!(only_tag.tag, vec![7; 16]);
    assert!(split_sealed(vec![], vec![7; 15]).is_none());
}

#[test]
fn stored_parts_are_joined_tag_last() {
    assert_eq!(join_sealed(&[1, 2], &[3, 4, 5]), vec![1, 2, 3, 4, 5]);
    assert_eq!(join_sealed(&[], &[]), Vec::<u8>::new());
}

#[test]
fn opened_bytes_have_to_be_text() {
    assert_eq!(opened_text(Some("grüß".as_bytes().to_vec())).unwrap(), "grüß");
    assert_eq!(opened_text(Some(vec![])).unwrap(), "");
    assert_eq!(opened_text(Some(vec![0xff, 0xfe])).unwrap_err(), CryptoError::DecryptionFailure);
    assert_eq!(opened_text(Some(vec![0xc3])).unwrap_err(), CryptoError::DecryptionFailure);
    assert_eq!(opened_text(None).unwrap_err(), CryptoError::DecryptionFailure);
}

#[test]
fn crypto_errors_say_what_failed() {
    assert_eq!(CryptoError::KeyMisconfigured.message(), "Key must be exactly 32 bytes (64 hex chars)");
    assert_eq!(CryptoError::EncryptionFailure.message(), "Encryption failure");
    assert_eq!(CryptoError::DecryptionFailure.message(), "Decryption failure");
}
