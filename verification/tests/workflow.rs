use file_encryptor::crypto::cipher::{decrypt, encrypt_with_nonce};
use file_encryptor::crypto::kdf::derive_key;
use file_encryptor::error::CryptoError;
use file_encryptor::metadata::EncryptedFile;
use file_encryptor::workflow::{
    authenticated, bundle, confirm_password, decrypt_flow, encrypt_flow,
};

#[test]
fn sealed_bytes_open_under_the_same_password() {
    let data = b"attack at dawn".to_vec();
    let sealed = encrypt_flow("s3cret", "s3cret", &data).unwrap();
    assert_eq!(sealed.len(), 28 + data.len() + 16);
    assert_eq!(decrypt_flow("s3cret", &sealed).unwrap(), data);
}

#[test]
fn empty_file_round_trips() {
    let sealed = encrypt_flow("pw", "pw", &[]).unwrap();
    assert_eq!(sealed.len(), 44);
    assert_eq!(decrypt_flow("pw", &sealed).unwrap(), Vec::<u8>::new());
}

#[test]
fn wrong_password_is_an_authentication_failure() {
    let sealed = encrypt_flow("right", "right", b"payload").unwrap();
    assert!(matches!(decrypt_flow("wrong", &sealed), Err(CryptoError::AuthenticationFailed)));
}

#[test]
fn mismatched_confirmation_is_refused() {
    assert!(matches!(
        encrypt_flow("one", "two", b"payload"),
        Err(CryptoError::PasswordMismatch)
    ));
}

#[test]
fn confirm_password_compares_exactly() {
    assert!(confirm_password("abc", "abc").is_ok());
    assert!(confirm_password("", "").is_ok());
    assert!(matches!(confirm_password("abc", "abd"), Err(CryptoError::PasswordMismatch)));
    assert!(matches!(confirm_password("abc", "abcd"), Err(CryptoError::PasswordMismatch)));
    assert!(matches!(confirm_password("abc", "ABC"), Err(CryptoError::PasswordMismatch)));
    assert!(matches!(confirm_password("é", "e"), Err(CryptoError::PasswordMismatch)));
}

#[test]
fn short_input_is_a_decode_failure() {
    assert!(matches!(decrypt_flow("pw", &[0u8; 27]), Err(CryptoError::Decrypt)));
    assert!(matches!(decrypt_flow("pw", &[]), Err(CryptoError::Decrypt)));
}

#[test]
fn header_alone_parses_but_fails_authentication() {
    assert!(matches!(decrypt_flow("pw", &[0u8; 28]), Err(CryptoError::AuthenticationFailed)));
}

#[test]
fn garbage_of_sufficient_length_fails_authentication() {
    assert!(matches!(decrypt_flow("pw", &[0x5A; 100]), Err(CryptoError::AuthenticationFailed)));
}

#[test]
fn salt_and_nonce_are_fresh_for_every_file() {
    let first = encrypt_flow("pw", "pw", b"same").unwrap();
    let second = encrypt_flow("pw", "pw", b"same").unwrap();
    assert_ne!(&first[..16], &second[..16]);
    assert_ne!(&first[16..28], &second[16..28]);
    assert_ne!(&first[28..], &second[28..]);
}

#[test]
fn container_holds_the_ciphertext_under_the_derived_key() {
    let sealed = encrypt_flow("pw", "pw", b"hello").unwrap();
    let file = EncryptedFile::deserialize(&sealed).unwrap();
    let key = derive_key("pw", &file.salt);
    assert_eq!(encrypt_with_nonce(b"hello", &key, &file.nonce), Ok(file.ciphertext.clone()));
    assert_eq!(decrypt(&file.ciphertext, &key, &file.nonce), Ok(b"hello".to_vec()));
}

#[test]
fn flipped_bit_in_the_ciphertext_region_is_detected() {
    let data = b"tamper with me".to_vec();
    let sealed = encrypt_flow("pw", "pw", &data).unwrap();
    let key = derive_key("pw", &sealed[..16]);
    for byte in 28..sealed.len() {
        for bit in 0..8 {
            let mut tampered = sealed.clone();
            tampered[byte] ^= 1 << bit;
            let file = EncryptedFile::deserialize(&tampered).unwrap();
            let outcome = authenticated(decrypt(&file.ciphertext, &key, &file.nonce));
            assert!(
                matches!(outcome, Err(CryptoError::AuthenticationFailed)),
                "byte {} bit {}",
                byte,
                bit
            );
        }
    }
}

#[test]
fn flipped_bit_fails_the_whole_pipeline() {
    let sealed = encrypt_flow("pw", "pw", b"tamper with me").unwrap();
    let mut in_ciphertext = sealed.clone();
    in_ciphertext[30] ^= 0x01;
    assert!(matches!(decrypt_flow("pw", &in_ciphertext), Err(CryptoError::AuthenticationFailed)));
    let mut in_tag = sealed.clone();
    let last = in_tag.len() - 1;
    in_tag[last] ^= 0x80;
    assert!(matches!(decrypt_flow("pw", &in_tag), Err(CryptoError::AuthenticationFailed)));
}

#[test]
fn flipped_bit_in_salt_or_nonce_is_detected() {
    let sealed = encrypt_flow("pw", "pw", b"tamper with me").unwrap();
    let mut in_salt = sealed.clone();
    in_salt[0] ^= 0x01;
    assert!(matches!(decrypt_flow("pw", &in_salt), Err(CryptoError::AuthenticationFailed)));
    let mut in_nonce = sealed.clone();
    in_nonce[16] ^= 0x01;
    assert!(matches!(decrypt_flow("pw", &in_nonce), Err(CryptoError::AuthenticationFailed)));
}

#[test]
fn decrypt_flow_opens_a_stored_container() {
    // salt 0xAA x 16, nonce 0x00..0x0b, "attack at dawn" under the key of
    // "correct horse battery staple".
    let key: [u8; 32] = [
        0x75, 0xa5, 0x0c, 0x0e, 0xd3, 0xc4, 0x4e, 0xfb, 0x9a, 0x10, 0xe9, 0xf1, 0xa4, 0xdf, 0x94,
        0x6c, 0x06, 0xea, 0xf5, 0x3b, 0x1d, 0xb0, 0x0b, 0x3e, 0xc8, 0x8b, 0x5a, 0x65, 0x5c, 0x80,
        0xca, 0x79,
    ];
    let nonce: [u8; 12] = [0, 1, 2, 3, 4, 5, 6, 7, 8, 9, 10, 11];
    let ciphertext = encrypt_with_nonce(b"attack at dawn", &key, &nonce).unwrap();
    let stored = EncryptedFile { salt: [0xAA; 16], nonce, ciphertext }.serialize();
    assert_eq!(
        decrypt_flow("correct horse battery staple", &stored).unwrap(),
        b"attack at dawn".to_vec()
    );
}

#[test]
fn bundle_lays_out_a_successful_encryption() {
    let bytes = bundle([0xAA; 16], Ok((vec![1, 2, 3], [0xBB; 12]))).unwrap();
    let mut expected = vec![0xAAu8; 16];
    expected.extend_from_slice(&[0xBB; 12]);
    expected.extend_from_slice(&[1, 2, 3]);
    assert_eq!(bytes, expected);
}

#[test]
fn bundle_reports_a_failed_encryption() {
    assert!(matches!(bundle([0; 16], Err(())), Err(CryptoError::Encrypt)));
}

#[test]
fn authenticated_passes_the_plaintext_on() {
    assert_eq!(authenticated(Ok(vec![9, 8, 7])).unwrap(), vec![9, 8, 7]);
    assert_eq!(authenticated(Ok(Vec::new())).unwrap(), Vec::<u8>::new());
}

#[test]
fn authenticated_reports_one_kind_of_failure() {
    assert!(matches!(authenticated(Err(())), Err(CryptoError::AuthenticationFailed)));
}
