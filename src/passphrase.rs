//! The passphrase pipeline: AES-256-CBC with PKCS#7 padding under a key that
//! is the SHA-256 digest of the passphrase.
//!
//! Known limitations: a container carries no authentication tag, so this
//! pipeline gives confidentiality only. The padding check on decryption is its
//! one integrity signal, and it misses most alterations. The key comes from a
//! single unsalted hash, which is weak against guessing of the passphrase.
use crate::error::CipherError;
use crate::primitives::{aes256_cbc_decrypt, aes256_cbc_encrypt, aes256_cbc_sealed, random_byte, sha256, sha256_of};
use vstd::prelude::*;

verus! {

/// Length of the initialization vector at the head of every container.
pub const IV_LEN: usize = 16;

/// The key derived from a passphrase: the SHA-256 digest of its UTF-8 bytes.
pub open spec fn passphrase_key(passphrase: Seq<char>) -> Seq<u8> {
    sha256_of(vstd::utf8::encode_utf8(passphrase))
}

/// The container that encrypting `plain` under `passphrase` with `iv` yields:
/// the IV followed by the CBC ciphertext.
pub open spec fn sealed_container(iv: Seq<u8>, passphrase: Seq<char>, plain: Seq<u8>) -> Seq<u8> {
    iv + aes256_cbc_sealed(passphrase_key(passphrase), iv, plain)
}

/// What decrypting the container `encrypted` under `passphrase` yields.
///
/// A container shorter than the IV is `InputTooShort`. Otherwise the result is
/// `Ok` exactly when the container is the encryption of some plaintext under
/// this passphrase and its own IV, and then it is that plaintext (so a
/// container from `encrypt_bytes` gives back what was encrypted); else
/// `DecryptionFailed`. In particular an `Ok` needs a non-empty ciphertext of
/// whole 16-byte blocks, with 1 to 16 bytes of padding.
pub open spec fn container_decryption(
    encrypted: Seq<u8>,
    passphrase: Seq<char>,
    r: Result<Vec<u8>, CipherError>,
) -> bool {
    &&& encrypted.len() < IV_LEN <==> r == Err::<Vec<u8>, CipherError>(CipherError::InputTooShort)
    &&& r is Err ==> r->Err_0 == CipherError::InputTooShort || r->Err_0 == CipherError::DecryptionFailed
    &&& r is Ok ==> encrypted == sealed_container(encrypted.subrange(0, IV_LEN as int), passphrase, r->Ok_0@)
    &&& r is Ok ==> {
        &&& (encrypted.len() - IV_LEN) % 16 == 0
        &&& encrypted.len() >= IV_LEN + 16
        &&& encrypted.len() - IV_LEN - 16 <= r->Ok_0@.len() < encrypted.len() - IV_LEN
    }
    &&& forall|iv: Seq<u8>, plain: Seq<u8>|
        iv.len() == IV_LEN && encrypted == #[trigger] sealed_container(iv, passphrase, plain)
            ==> r is Ok && r->Ok_0@ == plain
}

/// A fresh random initialization vector.
fn create_initialization_vector() -> (r: Vec<u8>)
    ensures
        r@.len() == IV_LEN,
{
    let mut iv: Vec<u8> = Vec::with_capacity(IV_LEN);
    while iv.len() < IV_LEN
        invariant
            iv@.len() <= IV_LEN,
        decreases IV_LEN - iv@.len(),
    {
        iv.push(random_byte());
    }
    iv
}

/// Derives the 32-byte key of a passphrase. The same passphrase always gives
/// the same key.
pub fn derive_encryption_key(passphrase: &str) -> (r: Vec<u8>)
    ensures
        r@ == passphrase_key(passphrase@),
        r@.len() == 32,
{
    sha256(passphrase.as_bytes())
}

/// Encrypts `input_bytes` under `passphrase` with a fresh random IV. The
/// result is the IV followed by the ciphertext; it never fails.
pub fn encrypt_bytes(input_bytes: &[u8], passphrase: &str) -> (r: Result<Vec<u8>, CipherError>)
    ensures
        r is Ok,
        r->Ok_0@.len() == IV_LEN + (input_bytes@.len() / 16 + 1) * 16,
        r->Ok_0@ == sealed_container(r->Ok_0@.subrange(0, IV_LEN as int), passphrase@, input_bytes@),
{
    let initialization_vector = create_initialization_vector();
    let encryption_key = derive_encryption_key(passphrase);
    let sealed = aes256_cbc_encrypt(encryption_key.as_slice(), initialization_vector.as_slice(), input_bytes);
    let mut encrypted_bytes = initialization_vector;
    let ghost iv = encrypted_bytes@;
    encrypted_bytes.extend_from_slice(sealed.as_slice());
    assert(encrypted_bytes@.subrange(0, IV_LEN as int) =~= iv);
    assert(encrypted_bytes@ =~= sealed_container(iv, passphrase@, input_bytes@));
    Ok(encrypted_bytes)
}

/// Decrypts a container made by `encrypt_bytes`: its first 16 bytes are the
/// IV, the rest the ciphertext. A container shorter than the IV is
/// `InputTooShort` before any cipher work; see `container_decryption` for the
/// rest.
pub fn decrypt_bytes(encrypted_bytes: &[u8], passphrase: &str) -> (r: Result<Vec<u8>, CipherError>)
    ensures
        container_decryption(encrypted_bytes@, passphrase@, r),
{
    if encrypted_bytes.len() < IV_LEN {
        return Err(CipherError::InputTooShort);
    }
    let initialization_vector = vstd::slice::slice_subrange(encrypted_bytes, 0, IV_LEN);
    let encrypted_data_section = vstd::slice::slice_subrange(encrypted_bytes, IV_LEN, encrypted_bytes.len());
    let encryption_key = derive_encryption_key(passphrase);
    assert(encrypted_bytes@ =~= initialization_vector@ + encrypted_data_section@);
    assert forall|iv: Seq<u8>, plain: Seq<u8>|
        iv.len() == IV_LEN && encrypted_bytes@ == #[trigger] sealed_container(iv, passphrase@, plain)
            implies encrypted_data_section@ == aes256_cbc_sealed(encryption_key@, initialization_vector@, plain) by {
        let tail = aes256_cbc_sealed(passphrase_key(passphrase@), iv, plain);
        assert(encrypted_bytes@ == iv + tail);
        assert(initialization_vector@ =~= iv);
        assert(encrypted_data_section@ =~= tail);
    }
    match aes256_cbc_decrypt(encryption_key.as_slice(), initialization_vector, encrypted_data_section) {
        Some(plain) => {
            if encrypted_data_section.len() - plain.len() > 16 {
                // padding longer than one block is not PKCS#7
                Err(CipherError::DecryptionFailed)
            } else {
                Ok(plain)
            }
        },
        None => Err(CipherError::DecryptionFailed),
    }
}

} // verus!
