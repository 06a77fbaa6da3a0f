use vstd::prelude::*;

verus! {

/// Every failure the engine reports.  All of these are recoverable
/// outcomes for the caller; none aborts the process, and none carries
/// secret material.
#[derive(Clone, Copy, PartialEq, Eq, Structural, Debug)]
pub enum Error {
    /// The key-derivation parameters were rejected; unreachable with the
    /// fixed parameters this crate uses.
    KeyDerivationFailed,
    /// The key length does not match what the algorithm requires.
    CipherInitFailed,
    /// The underlying cipher rejected an encryption input.
    EncryptionFailed,
    /// An authentication tag did not verify: tampering, a wrong key, or
    /// corruption.  No further cause is disclosed.
    AuthenticationFailed,
    /// The header is too short or its algorithm tag is unrecognized.
    MalformedHeader,
    /// A ciphertext stream ended on a block not marked final.
    StreamTruncated,
    /// Bytes remained after a block marked final.
    UnexpectedTrailingData,
}

impl Error {
    /// A short description, for callers that print errors.
    pub fn message(&self) -> &'static str {
        match self {
            Error::KeyDerivationFailed => "key derivation failed",
            Error::CipherInitFailed => "cipher initialization failed",
            Error::EncryptionFailed => "encryption failed",
            Error::AuthenticationFailed => "authentication failed",
            Error::MalformedHeader => "malformed header",
            Error::StreamTruncated => "ciphertext stream is truncated",
            Error::UnexpectedTrailingData => "unexpected data after the final block",
        }
    }
}

} // verus!
