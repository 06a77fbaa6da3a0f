use vstd::prelude::*;

use rand::RngCore;

use crate::algorithm::SALT_LEN;

verus! {

/// Relies on `rand::rngs::ThreadRng::fill_bytes`: it fills the buffer
/// with bytes from a cryptographically secure generator.  Nothing can be
/// promised of the contents; only the length is stated.
#[verifier::external_body]
pub(crate) fn random_bytes(n: usize) -> (r: Vec<u8>)
    ensures
        r@.len() == n,
{
    let mut buf = vec![0u8; n];
    rand::thread_rng().fill_bytes(&mut buf);
    buf
}

/// A fresh random salt for one encryption.  Salts are never reused
/// across files; each call draws new random bytes.
pub fn generate_salt() -> (r: Vec<u8>)
    ensures
        r@.len() == SALT_LEN,
{
    random_bytes(SALT_LEN)
}

} // verus!
