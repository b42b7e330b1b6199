//! One entry point for both pipelines, with one shape of result.
use crate::aead::{aead_decryption, decrypt_aead, verify_permissions, AuthorizationContext, KEY_LEN, NONCE_LEN};
use crate::error::CipherError;
use crate::passphrase::{container_decryption, decrypt_bytes};
use vstd::prelude::*;

verus! {

/// Which pipeline produced a payload, with the secret material that opens it.
/// The two container formats are not interchangeable: the caller must know
/// which one it holds.
pub enum CipherScheme {
    /// An AES-256-GCM payload; the key and nonce are supplied out of band.
    Aead { key: Vec<u8>, nonce: Vec<u8> },
    /// A passphrase container: the IV followed by the CBC ciphertext.
    CbcPassphrase { passphrase: String },
}

/// Decrypts `data` with the pipeline that `scheme` names.
///
/// For the AEAD pipeline permission is tested first, then the sizes of the key
/// (32 bytes) and nonce (12 bytes): others are `MalformedInput`. The
/// passphrase pipeline does not consult `context`.
pub fn decrypt_with(scheme: &CipherScheme, context: &AuthorizationContext, data: &[u8]) -> (r: Result<
    Vec<u8>,
    CipherError,
>)
    ensures
        match scheme {
            CipherScheme::Aead { key, nonce } => if !context.is_privileged() {
                r == Err::<Vec<u8>, CipherError>(CipherError::AuthorizationDenied)
            } else if key@.len() != KEY_LEN || nonce@.len() != NONCE_LEN {
                r == Err::<Vec<u8>, CipherError>(CipherError::MalformedInput)
            } else {
                aead_decryption(true, data@, key@, nonce@, r)
            },
            CipherScheme::CbcPassphrase { passphrase } => container_decryption(data@, passphrase@, r),
        },
{
    match scheme {
        CipherScheme::Aead { key, nonce } => {
            if !verify_permissions(context) {
                return Err(CipherError::AuthorizationDenied);
            }
            if key.len() != KEY_LEN || nonce.len() != NONCE_LEN {
                return Err(CipherError::MalformedInput);
            }
            decrypt_aead(context, data, key.as_slice(), nonce.as_slice())
        },
        CipherScheme::CbcPassphrase { passphrase } => decrypt_bytes(data, passphrase.as_str()),
    }
}

} // verus!
