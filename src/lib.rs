//! Symmetric file encryption with two independent pipelines.
//!
//! * The passphrase pipeline derives an AES-256 key from a passphrase with
//!   SHA-256 and encrypts in CBC mode with PKCS#7 padding. Each container is
//!   the random 16-byte IV followed by the ciphertext.
//! * The AEAD pipeline opens AES-256-GCM payloads under a caller-supplied key
//!   and nonce, behind an authorization gate.

mod error;
mod primitives;
mod passphrase;
mod aead;
mod scheme;
mod laws;

pub use error::CipherError;
pub use primitives::{aes256_cbc_sealed, aes256_gcm_sealed, gcm_plain_max, hex_decoded, hex_value, is_hex_digit, sha256_of};
pub use passphrase::{container_decryption, decrypt_bytes, derive_encryption_key, encrypt_bytes, passphrase_key, sealed_container, IV_LEN};
pub use aead::{aead_decryption, aead_secrets, decrypt_aead, parse_aead_secrets, verify_permissions, AuthorizationContext, KEY_LEN, NONCE_LEN};
pub use scheme::{decrypt_with, CipherScheme};
pub use laws::{lemma_aead_round_trip, lemma_passphrase_round_trip, lemma_short_container_rejected, lemma_unprivileged_denied};
