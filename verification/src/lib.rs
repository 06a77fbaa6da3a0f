//! A verified file-encryption engine.
//!
//! A password and a per-file salt are turned into a 32-byte key by a
//! memory-hard derivation; one of three interchangeable AEAD ciphers
//! authenticates and encrypts the file contents, either whole
//! ("memory mode") or in fixed-size independently authenticated blocks
//! ("stream mode") whose nonces are derived from a base nonce and a
//! monotonically increasing counter, so that truncation of the stream
//! is detected.  A fixed-layout header binds salt, nonce and algorithm
//! tag to the ciphertext.

pub mod algorithm;
pub mod cipher;
pub mod engine;
pub mod error;
pub mod hash;
pub mod header;
pub mod kdf;
pub mod params;
pub mod rng;
pub mod secret;
pub mod stream;
