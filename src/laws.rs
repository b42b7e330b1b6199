//! Laws that relate the pipelines' operations, stated over the predicates that
//! their contracts use.
use crate::aead::{aead_decryption, KEY_LEN, NONCE_LEN};
use crate::error::CipherError;
use crate::passphrase::{container_decryption, sealed_container, IV_LEN};
use crate::primitives::{aes256_gcm_sealed, gcm_plain_max};
use vstd::prelude::*;

verus! {

/// Passphrase round trip: a container that `encrypt_bytes` made from `plain`
/// under `passphrase` (with whatever IV it drew) decrypts under the same
/// passphrase to `plain`, the empty plaintext included.
pub proof fn lemma_passphrase_round_trip(
    container: Seq<u8>,
    passphrase: Seq<char>,
    plain: Seq<u8>,
    r: Result<Vec<u8>, CipherError>,
)
    requires
        container.len() >= IV_LEN,
        container == sealed_container(container.subrange(0, IV_LEN as int), passphrase, plain),
        container_decryption(container, passphrase, r),
    ensures
        r is Ok,
        r->Ok_0@ == plain,
{
}

/// Short input: decrypting fewer bytes than an IV always fails with
/// `InputTooShort`.
pub proof fn lemma_short_container_rejected(
    container: Seq<u8>,
    passphrase: Seq<char>,
    r: Result<Vec<u8>, CipherError>,
)
    requires
        container.len() < IV_LEN,
        container_decryption(container, passphrase, r),
    ensures
        r == Err::<Vec<u8>, CipherError>(CipherError::InputTooShort),
{
}

/// AEAD round trip: the AES-256-GCM sealing of `plain` under a 32-byte key and
/// a 12-byte nonce opens, for a privileged caller, to `plain`.
pub proof fn lemma_aead_round_trip(
    key: Seq<u8>,
    nonce: Seq<u8>,
    plain: Seq<u8>,
    r: Result<Vec<u8>, CipherError>,
)
    requires
        key.len() == KEY_LEN,
        nonce.len() == NONCE_LEN,
        plain.len() <= gcm_plain_max(),
        aead_decryption(true, aes256_gcm_sealed(key, nonce, plain), key, nonce, r),
    ensures
        r is Ok,
        r->Ok_0@ == plain,
{
}

/// Authorization first: without privilege, opening any payload under any key
/// and nonce is `AuthorizationDenied`, never another error.
pub proof fn lemma_unprivileged_denied(
    ciphertext: Seq<u8>,
    key: Seq<u8>,
    nonce: Seq<u8>,
    r: Result<Vec<u8>, CipherError>,
)
    requires
        aead_decryption(false, ciphertext, key, nonce, r),
    ensures
        r == Err::<Vec<u8>, CipherError>(CipherError::AuthorizationDenied),
{
}

} // verus!
