use vstd::prelude::*;

verus! {

/// Length in bytes of every symmetric key.
pub const KEY_LEN: usize = 32;

/// Length in bytes of the per-file salt.
pub const SALT_LEN: usize = 16;

/// Length in bytes of an AEAD authentication tag.
pub const TAG_LEN: usize = 16;

/// The three supported AEAD constructions.  Each uses a 32-byte key;
/// the nonce length differs per algorithm.  The header stores a one-byte
/// tag for the algorithm so that decryption selects the matching cipher.
#[derive(Clone, Copy, PartialEq, Eq, Structural, Debug)]
pub enum Algorithm {
    Aes256Gcm,
    XChaCha20Poly1305,
    DeoxysII256,
}

impl Algorithm {
    /// Nonce length in bytes when a whole message is sealed at once
    /// (memory mode).  Stream mode stores four bytes fewer in the header
    /// and supplies them per block as a counter.
    pub open spec fn spec_nonce_len(self) -> nat {
        match self {
            Algorithm::Aes256Gcm => 12,
            Algorithm::XChaCha20Poly1305 => 24,
            Algorithm::DeoxysII256 => 15,
        }
    }

    pub fn nonce_len(&self) -> (n: usize)
        ensures
            n == self.spec_nonce_len(),
    {
        match self {
            Algorithm::Aes256Gcm => 12,
            Algorithm::XChaCha20Poly1305 => 24,
            Algorithm::DeoxysII256 => 15,
        }
    }

    /// The byte that the on-disk header stores for this algorithm.
    pub open spec fn spec_header_tag(self) -> u8 {
        match self {
            Algorithm::Aes256Gcm => 1,
            Algorithm::XChaCha20Poly1305 => 2,
            Algorithm::DeoxysII256 => 3,
        }
    }

    pub fn header_tag(&self) -> (t: u8)
        ensures
            t == self.spec_header_tag(),
    {
        match self {
            Algorithm::Aes256Gcm => 1,
            Algorithm::XChaCha20Poly1305 => 2,
            Algorithm::DeoxysII256 => 3,
        }
    }

    /// The algorithm a header byte denotes, if any.
    pub open spec fn spec_from_header_tag(t: u8) -> Option<Algorithm> {
        if t == 1 {
            Some(Algorithm::Aes256Gcm)
        } else if t == 2 {
            Some(Algorithm::XChaCha20Poly1305)
        } else if t == 3 {
            Some(Algorithm::DeoxysII256)
        } else {
            None
        }
    }

    pub fn from_header_tag(t: u8) -> (r: Option<Algorithm>)
        ensures
            r == Algorithm::spec_from_header_tag(t),
    {
        if t == 1 {
            Some(Algorithm::Aes256Gcm)
        } else if t == 2 {
            Some(Algorithm::XChaCha20Poly1305)
        } else if t == 3 {
            Some(Algorithm::DeoxysII256)
        } else {
            None
        }
    }
}

} // verus!
