use exec_gateway::{decrypt, decrypt_credentials, encrypt, seal_unseal_round_trip, CryptoError};

#[test]
fn test_encrypt_decrypt() {
    let key = [0u8; 32]; // Test key
    let plaintext = b"my_secret_api_key";

    let encrypted = encrypt(&key, plaintext).unwrap();
    let decrypted = decrypt(&key, &encrypted).unwrap();

    assert_eq!(plaintext.to_vec(), decrypted);
}

#[test]
fn round_trip_helper_returns_the_plaintext() {
    let key = [7u8; 32];
    let out = seal_unseal_round_trip(&key, b"paired legs").unwrap();
    assert_eq!(out, b"paired legs".to_vec());
}

#[test]
fn wrong_key_length_is_refused() {
    assert_eq!(encrypt(&[0u8; 16], b"x").unwrap_err(), CryptoError::KeyLength);
    assert_eq!(decrypt(&[0u8; 31], &[0u8; 40]).unwrap_err(), CryptoError::KeyLength);
}

#[test]
fn short_ciphertext_is_refused() {
    assert_eq!(decrypt(&[0u8; 32], &[0u8; 11]).unwrap_err(), CryptoError::TooShort);
}

#[test]
fn tampering_breaks_the_tag() {
    let key = [3u8; 32];
    let mut sealed = encrypt(&key, b"hands off").unwrap();
    let last = sealed.len() - 1;
    sealed[last] ^= 0x01;
    assert_eq!(decrypt(&key, &sealed).unwrap_err(), CryptoError::Aead);
}

#[test]
fn wrong_key_fails_to_open() {
    let key = [3u8; 32];
    let other = [4u8; 32];
    let sealed = encrypt(&key, b"hands off").unwrap();
    assert_eq!(decrypt(&other, &sealed).unwrap_err(), CryptoError::Aead);
}

#[test]
fn credentials_round_trip_with_passphrase() {
    let key = [9u8; 32];
    let sealed_key = encrypt(&key, b"api-key").unwrap();
    let sealed_secret = encrypt(&key, b"api-secret").unwrap();
    let sealed_pass = encrypt(&key, b"pass-phrase").unwrap();
    let (api_key, api_secret, passphrase) =
        decrypt_credentials(&key, &sealed_key, &sealed_secret, Some(&sealed_pass)).unwrap();
    assert_eq!(api_key, "api-key");
    assert_eq!(api_secret, "api-secret");
    assert_eq!(passphrase.as_deref(), Some("pass-phrase"));
}

#[test]
fn credentials_round_trip_without_passphrase() {
    let key = [9u8; 32];
    let sealed_key = encrypt(&key, b"k").unwrap();
    let sealed_secret = encrypt(&key, b"s").unwrap();
    let (api_key, api_secret, passphrase) =
        decrypt_credentials(&key, &sealed_key, &sealed_secret, None).unwrap();
    assert_eq!(api_key, "k");
    assert_eq!(api_secret, "s");
    assert!(passphrase.is_none());
}

#[test]
fn credentials_with_invalid_utf8_are_refused() {
    let key = [9u8; 32];
    let sealed_key = encrypt(&key, &[0xff, 0xfe, 0x00, 0x80]).unwrap();
    let sealed_secret = encrypt(&key, b"s").unwrap();
    assert_eq!(
        decrypt_credentials(&key, &sealed_key, &sealed_secret, None).unwrap_err(),
        CryptoError::Utf8
    );
}

#[test]
fn sealed_values_carry_nonce_and_tag() {
    let key = [5u8; 32];
    for msg in [&b""[..], &b"x"[..], &b"a longer credential payload"[..]] {
        let sealed = encrypt(&key, msg).unwrap();
        assert_eq!(sealed.len(), msg.len() + 28);
    }
}
