use vstd::prelude::*;

verus! {

/// Why an operation of the engine did not produce its result.
#[derive(Debug, Clone, Copy, PartialEq, Eq, Structural)]
pub enum CipherError {
    /// The authorization gate refused the call; no cryptographic work was done.
    AuthorizationDenied,
    /// Key or nonce material that does not decode to the sizes the cipher needs.
    MalformedInput,
    /// A passphrase container shorter than its 16-byte IV.
    InputTooShort,
    /// The passphrase pipeline found no valid padding after decryption.
    DecryptionFailed,
    /// The AEAD tag did not verify (wrong key, wrong nonce or altered data).
    AuthenticationFailure,
}

} // verus!
