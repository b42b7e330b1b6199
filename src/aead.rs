//! The AEAD pipeline: AES-256-GCM payloads opened under a caller-supplied key
//! and nonce, behind an authorization gate.
use crate::error::CipherError;
use crate::primitives::{aes256_gcm_decrypt, aes256_gcm_sealed, gcm_plain_max, hex_decode, hex_decoded};
use vstd::prelude::*;

verus! {

/// Length of an AES-256 key.
pub const KEY_LEN: usize = 32;

/// Length of an AES-GCM nonce.
pub const NONCE_LEN: usize = 12;

/// The authorization signal that the caller hands to the AEAD pipeline: the
/// value of the permission flag, if it is set.
pub struct AuthorizationContext {
    pub permissions: Option<String>,
}

impl AuthorizationContext {
    /// The flag is set, and to the privileged value `admin`.
    pub open spec fn is_privileged(&self) -> bool {
        match self.permissions {
            Some(p) => p@ == "admin"@,
            None => false,
        }
    }
}

/// The authorization gate: true exactly when the flag holds `admin`.
pub fn verify_permissions(context: &AuthorizationContext) -> (r: bool)
    ensures
        r == context.is_privileged(),
{
    match &context.permissions {
        Some(p) => {
            let privileged = "admin".to_owned();
            *p == privileged
        },
        None => false,
    }
}

/// What opening the AES-256-GCM payload `ciphertext` under `key` and `nonce`
/// yields, given whether the caller is privileged.
///
/// Without privilege the result is `AuthorizationDenied`. Otherwise it is `Ok`
/// exactly when the payload is the sealing of some plaintext under this key and
/// nonce, and then it is that plaintext; any other payload (altered, truncated,
/// or sealed under another key or nonce) is `AuthenticationFailure`, with no
/// part of a plaintext.
pub open spec fn aead_decryption(
    privileged: bool,
    ciphertext: Seq<u8>,
    key: Seq<u8>,
    nonce: Seq<u8>,
    r: Result<Vec<u8>, CipherError>,
) -> bool {
    &&& !privileged ==> r == Err::<Vec<u8>, CipherError>(CipherError::AuthorizationDenied)
    &&& privileged && r is Err ==> r->Err_0 == CipherError::AuthenticationFailure
    &&& r is Ok ==> ciphertext == aes256_gcm_sealed(key, nonce, r->Ok_0@)
    &&& privileged ==> forall|plain: Seq<u8>|
        plain.len() <= gcm_plain_max() && ciphertext == #[trigger] aes256_gcm_sealed(key, nonce, plain)
            ==> r is Ok && r->Ok_0@ == plain
}

/// Opens an AES-256-GCM payload (ciphertext followed by its tag) under `key`
/// and `nonce`.
///
/// Permission is tested first: without the privileged flag the call is
/// `AuthorizationDenied` and does no cryptographic work. See
/// `aead_decryption` for the rest.
pub fn decrypt_aead(
    context: &AuthorizationContext,
    ciphertext: &[u8],
    key: &[u8],
    nonce: &[u8],
) -> (r: Result<Vec<u8>, CipherError>)
    requires
        key@.len() == KEY_LEN,
        nonce@.len() == NONCE_LEN,
    ensures
        aead_decryption(context.is_privileged(), ciphertext@, key@, nonce@, r),
{
    if !verify_permissions(context) {
        return Err(CipherError::AuthorizationDenied);
    }
    match aes256_gcm_decrypt(key, nonce, ciphertext) {
        Some(plain) => Ok(plain),
        None => Err(CipherError::AuthenticationFailure),
    }
}

/// The key and nonce that two hexadecimal texts spell, when they decode and
/// have the sizes that AES-256-GCM needs.
pub open spec fn aead_secrets(key_hex: Seq<u8>, nonce_hex: Seq<u8>) -> Option<(Seq<u8>, Seq<u8>)> {
    match (hex_decoded(key_hex), hex_decoded(nonce_hex)) {
        (Some(k), Some(n)) => if k.len() == KEY_LEN && n.len() == NONCE_LEN {
            Some((k, n))
        } else {
            None
        },
        _ => None,
    }
}

/// Decodes a hexadecimal key and nonce. Either failing to decode, or decoding
/// to a length other than 32 bytes for the key and 12 for the nonce, is
/// `MalformedInput`.
pub fn parse_aead_secrets(key_hex: &str, nonce_hex: &str) -> (r: Result<(Vec<u8>, Vec<u8>), CipherError>)
    ensures
        match aead_secrets(vstd::utf8::encode_utf8(key_hex@), vstd::utf8::encode_utf8(nonce_hex@)) {
            Some((k, n)) => r is Ok && r->Ok_0.0@ == k && r->Ok_0.1@ == n,
            None => r == Err::<(Vec<u8>, Vec<u8>), CipherError>(CipherError::MalformedInput),
        },
{
    let key = match hex_decode(key_hex.as_bytes()) {
        Some(k) => k,
        None => return Err(CipherError::MalformedInput),
    };
    let nonce = match hex_decode(nonce_hex.as_bytes()) {
        Some(n) => n,
        None => return Err(CipherError::MalformedInput),
    };
    if key.len() != KEY_LEN || nonce.len() != NONCE_LEN {
        return Err(CipherError::MalformedInput);
    }
    Ok((key, nonce))
}

} // verus!
