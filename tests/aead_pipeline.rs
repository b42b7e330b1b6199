use aes_gcm::aead::{Aead, NewAead};
use aes_gcm::{Aes256Gcm, Key, Nonce};
use file_cipher::{
    decrypt_aead, decrypt_with, encrypt_bytes, parse_aead_secrets, verify_permissions, AuthorizationContext, CipherError,
    CipherScheme,
};

fn admin() -> AuthorizationContext {
    AuthorizationContext { permissions: Some("admin".to_string()) }
}

fn key() -> Vec<u8> {
    (0..32u8).collect()
}

fn nonce() -> Vec<u8> {
    (100..112u8).collect()
}

fn seal(plain: &[u8], key: &[u8], nonce: &[u8]) -> Vec<u8> {
    let cipher = Aes256Gcm::new(Key::from_slice(key));
    cipher.encrypt(Nonce::from_slice(nonce), plain).unwrap()
}

#[test]
fn aead_round_trip() {
    for len in [0usize, 1, 5, 16, 17, 100] {
        let data: Vec<u8> = (0..len).map(|i| (i * 13) as u8).collect();
        let sealed = seal(&data, &key(), &nonce());
        assert_eq!(sealed.len(), len + 16);
        assert_eq!(decrypt_aead(&admin(), &sealed, &key(), &nonce()), Ok(data));
    }
}

#[test]
fn aead_any_flipped_bit_is_rejected() {
    let sealed = seal(b"attack at dawn", &key(), &nonce());
    for byte in 0..sealed.len() {
        for bit in 0..8 {
            let mut altered = sealed.clone();
            altered[byte] ^= 1 << bit;
            assert_eq!(
                decrypt_aead(&admin(), &altered, &key(), &nonce()),
                Err(CipherError::AuthenticationFailure)
            );
        }
    }
}

#[test]
fn aead_wrong_key_nonce_or_truncation_is_rejected() {
    let sealed = seal(b"payload", &key(), &nonce());
    let mut other_key = key();
    other_key[0] ^= 0xff;
    let mut other_nonce = nonce();
    other_nonce[11] ^= 0x01;
    assert_eq!(decrypt_aead(&admin(), &sealed, &other_key, &nonce()), Err(CipherError::AuthenticationFailure));
    assert_eq!(decrypt_aead(&admin(), &sealed, &key(), &other_nonce), Err(CipherError::AuthenticationFailure));
    assert_eq!(
        decrypt_aead(&admin(), &sealed[..sealed.len() - 1], &key(), &nonce()),
        Err(CipherError::AuthenticationFailure)
    );
    assert_eq!(decrypt_aead(&admin(), &[], &key(), &nonce()), Err(CipherError::AuthenticationFailure));
}

#[test]
fn gate_refuses_without_the_privileged_flag() {
    let sealed = seal(b"payload", &key(), &nonce());
    for flag in [None, Some(""), Some("user"), Some("Admin"), Some("admin "), Some("administrator")] {
        let context = AuthorizationContext { permissions: flag.map(|f| f.to_string()) };
        assert!(!verify_permissions(&context));
        assert_eq!(decrypt_aead(&context, &sealed, &key(), &nonce()), Err(CipherError::AuthorizationDenied));
        assert_eq!(decrypt_aead(&context, &[], &key(), &nonce()), Err(CipherError::AuthorizationDenied));
    }
    assert!(verify_permissions(&admin()));
}

#[test]
fn secrets_decode_from_hex() {
    let key_hex = "000102030405060708090a0b0c0d0e0f101112131415161718191A1B1C1D1E1F";
    let nonce_hex = "646566676869 6a6b6c6d6e6f".replace(' ', "");
    let (k, n) = parse_aead_secrets(key_hex, &nonce_hex).unwrap();
    assert_eq!(k, key());
    assert_eq!(n, nonce());
}

#[test]
fn malformed_secrets_are_rejected() {
    let good_key = "00".repeat(32);
    let good_nonce = "00".repeat(12);
    assert!(parse_aead_secrets(&good_key, &good_nonce).is_ok());
    assert_eq!(parse_aead_secrets(&"00".repeat(31), &good_nonce), Err(CipherError::MalformedInput));
    assert_eq!(parse_aead_secrets(&good_key, &"00".repeat(13)), Err(CipherError::MalformedInput));
    assert_eq!(parse_aead_secrets(&good_key[1..], &good_nonce), Err(CipherError::MalformedInput));
    let bad_digit = format!("g{}", &good_key[1..]);
    assert_eq!(parse_aead_secrets(&bad_digit, &good_nonce), Err(CipherError::MalformedInput));
    assert_eq!(parse_aead_secrets("", ""), Err(CipherError::MalformedInput));
}

#[test]
fn scheme_dispatch_opens_either_format() {
    let sealed = seal(b"aead payload", &key(), &nonce());
    let aead = CipherScheme::Aead { key: key(), nonce: nonce() };
    assert_eq!(decrypt_with(&aead, &admin(), &sealed), Ok(b"aead payload".to_vec()));
    let user = AuthorizationContext { permissions: Some("user".to_string()) };
    assert_eq!(decrypt_with(&aead, &user, &sealed), Err(CipherError::AuthorizationDenied));

    let container = encrypt_bytes(b"cbc payload", "secret_key").unwrap();
    let cbc = CipherScheme::CbcPassphrase { passphrase: "secret_key".to_string() };
    assert_eq!(decrypt_with(&cbc, &user, &container), Ok(b"cbc payload".to_vec()));
    assert_eq!(decrypt_with(&cbc, &user, &container[..10]), Err(CipherError::InputTooShort));
}

#[test]
fn scheme_dispatch_rejects_bad_key_or_nonce_sizes() {
    let short_key = CipherScheme::Aead { key: vec![0u8; 31], nonce: nonce() };
    let long_nonce = CipherScheme::Aead { key: key(), nonce: vec![0u8; 13] };
    assert_eq!(decrypt_with(&short_key, &admin(), b"x"), Err(CipherError::MalformedInput));
    assert_eq!(decrypt_with(&long_nonce, &admin(), b"x"), Err(CipherError::MalformedInput));
    let nobody = AuthorizationContext { permissions: None };
    assert_eq!(decrypt_with(&short_key, &nobody, b"x"), Err(CipherError::AuthorizationDenied));
}
