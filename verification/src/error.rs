//! The error taxonomy of the cryptographic core.

use vstd::prelude::*;

verus! {

/// Every failure the core can report to its caller.  A signature that merely
/// fails to match is reported as a boolean `false` by the verifiers, never as
/// an error.
#[derive(Clone, Copy, Debug, PartialEq, Eq, Structural)]
pub enum CryptoError {
    /// A key whose length is not exactly 32 bytes was offered to an engine.
    InvalidKeyLength,
    /// A signature buffer too short for the selected algorithm.
    MalformedSignature,
    /// The authentication tag of a ciphertext did not verify on decryption.
    AuthenticationFailure,
    /// 32 bytes that do not decode to a curve point usable as a public key.
    InvalidPublicKey,
    /// A nonce whose length is not exactly 12 bytes was offered to the cipher.
    InvalidNonceLength,
    /// A format tag outside the closed set of algorithm names.
    InvalidFormat,
}

impl CryptoError {
    /// A human-readable description of the failure.
    pub fn message(&self) -> &'static str {
        match self {
            CryptoError::InvalidKeyLength => "key length must be 32 bytes",
            CryptoError::MalformedSignature => "signature is too short",
            CryptoError::AuthenticationFailure => "ciphertext failed authentication",
            CryptoError::InvalidPublicKey => "public key is not a valid curve point",
            CryptoError::InvalidNonceLength => "nonce length must be 12 bytes",
            CryptoError::InvalidFormat => "invalid format",
        }
    }
}

} // verus!
