use aes::Aes256;
use aes_gcm::aead::generic_array::GenericArray;
use aes_gcm::aead::{Aead, NewAead};
use aes_gcm::Aes256Gcm;
use block_modes::block_padding::Pkcs7;
use block_modes::{BlockMode, Cbc};
use sha2::{Digest, Sha256};
use vstd::prelude::*;

verus! {

/// The SHA-256 digest of `data`.
pub uninterp spec fn sha256_of(data: Seq<u8>) -> Seq<u8>;

/// What AES-256 in CBC mode with PKCS#7 padding makes of `plain` under `key`
/// and `iv` (the IV itself is not part of it).
pub uninterp spec fn aes256_cbc_sealed(key: Seq<u8>, iv: Seq<u8>, plain: Seq<u8>) -> Seq<u8>;

/// What AES-256-GCM makes of `plain` under `key` and `nonce`, with no
/// associated data: the ciphertext followed by the 16-byte tag.
pub uninterp spec fn aes256_gcm_sealed(key: Seq<u8>, nonce: Seq<u8>, plain: Seq<u8>) -> Seq<u8>;

/// The largest plaintext, in bytes, that AES-256-GCM seals: 2^32 - 2 blocks
/// of 16 bytes, what its 32-bit block counter covers.
pub open spec fn gcm_plain_max() -> nat {
    0x0f_ffff_ffe0
}

/// An ASCII hexadecimal digit, in either case.
pub open spec fn is_hex_digit(c: u8) -> bool {
    (48 <= c && c <= 57) || (65 <= c && c <= 70) || (97 <= c && c <= 102)
}

/// The value of a hexadecimal digit.
pub open spec fn hex_value(c: u8) -> int {
    if c <= 57 {
        c - 48
    } else if c <= 70 {
        c - 55
    } else {
        c - 87
    }
}

/// The bytes that a hexadecimal text spells, two digits per byte, high digit
/// first; `None` for an odd length or a character that is not a digit.
pub open spec fn hex_decoded(text: Seq<u8>) -> Option<Seq<u8>> {
    if text.len() % 2 == 0 && forall|i: int| 0 <= i < text.len() ==> is_hex_digit(#[trigger] text[i]) {
        Some(
            Seq::new(
                text.len() / 2,
                |i: int| (hex_value(text[2 * i]) * 16 + hex_value(text[2 * i + 1])) as u8,
            ),
        )
    } else {
        None
    }
}

/// Relies on sha2's `Sha256::digest`: the 32-byte SHA-256 digest of `data`.
#[verifier::external_body]
pub(crate) fn sha256(data: &[u8]) -> (r: Vec<u8>)
    ensures
        r@ == sha256_of(data@),
        r@.len() == 32,
{
    Sha256::digest(data).to_vec()
}

/// Relies on `rand::random::<u8>`, a byte from the thread-local generator that
/// rand seeds from the operating system. Nothing is known of its value.
#[verifier::external_body]
pub(crate) fn random_byte() -> (r: u8) {
    rand::random::<u8>()
}

/// Relies on block_modes: `Cbc::<Aes256, Pkcs7>::new_from_slices` accepts a
/// 32-byte key and a 16-byte IV, and `encrypt_vec` pads with PKCS#7 to the
/// next whole block (1 to 16 bytes) and encrypts the blocks in CBC mode.
#[verifier::external_body]
pub(crate) fn aes256_cbc_encrypt(key: &[u8], iv: &[u8], plain: &[u8]) -> (r: Vec<u8>)
    requires
        key@.len() == 32,
        iv@.len() == 16,
    ensures
        r@ == aes256_cbc_sealed(key@, iv@, plain@),
        r@.len() == (plain@.len() / 16 + 1) * 16,
{
    let cipher = Cbc::<Aes256, Pkcs7>::new_from_slices(key, iv).expect("32-byte key, 16-byte IV");
    cipher.encrypt_vec(plain)
}

/// Relies on block_modes: `Cbc::<Aes256, Pkcs7>::new_from_slices` as above,
/// and `decrypt_vec`, which fails with `BlockModeError` unless the input is a
/// whole number of blocks, decrypts them, and strips the padding with
/// block_padding's `Pkcs7::unpad`. That accepts a last byte `n` from 1 up to
/// the whole length when the last `n` bytes all equal `n`, so `n` may exceed
/// one block. With `n` at most 16 the plaintext re-encrypts to the input; and
/// every output of `encrypt_vec` under the same key and IV decrypts to what
/// was encrypted.
#[verifier::external_body]
pub(crate) fn aes256_cbc_decrypt(key: &[u8], iv: &[u8], sealed: &[u8]) -> (r: Option<Vec<u8>>)
    requires
        key@.len() == 32,
        iv@.len() == 16,
    ensures
        forall|plain: Seq<u8>|
            sealed@ == #[trigger] aes256_cbc_sealed(key@, iv@, plain) ==> r is Some && r->0@ == plain
                && sealed@.len() == (r->0@.len() / 16 + 1) * 16,
        r is Some ==> sealed@.len() % 16 == 0,
        r is Some ==> r->0@.len() < sealed@.len(),
        r is Some && sealed@.len() - r->0@.len() <= 16 ==> sealed@ == aes256_cbc_sealed(key@, iv@, r->0@),
{
    let cipher = Cbc::<Aes256, Pkcs7>::new_from_slices(key, iv).expect("32-byte key, 16-byte IV");
    cipher.decrypt_vec(sealed).ok()
}

/// Relies on aes_gcm: `Aes256Gcm::new` on a 32-byte key, and `Aead::decrypt`
/// with a 12-byte nonce and no associated data, which checks the trailing
/// 16-byte tag and returns the plaintext only when it verifies (`aead::Error`
/// otherwise).
#[verifier::external_body]
pub(crate) fn aes256_gcm_decrypt(key: &[u8], nonce: &[u8], sealed: &[u8]) -> (r: Option<Vec<u8>>)
    requires
        key@.len() == 32,
        nonce@.len() == 12,
    ensures
        forall|plain: Seq<u8>|
            plain.len() <= gcm_plain_max() && sealed@ == #[trigger] aes256_gcm_sealed(key@, nonce@, plain)
                ==> r is Some && r->0@ == plain,
        r is Some ==> sealed@ == aes256_gcm_sealed(key@, nonce@, r->0@),
{
    let cipher = Aes256Gcm::new(GenericArray::from_slice(key));
    cipher.decrypt(GenericArray::from_slice(nonce), sealed).ok()
}

/// Relies on `hex::decode`: two digits of either case per byte, high digit
/// first; an odd length or any other character is an error.
#[verifier::external_body]
pub(crate) fn hex_decode(text: &[u8]) -> (r: Option<Vec<u8>>)
    ensures
        match hex_decoded(text@) {
            Some(bytes) => r is Some && r->0@ == bytes,
            None => r is None,
        },
{
    hex::decode(text).ok()
}

} // verus!
