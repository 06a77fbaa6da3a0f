use vstd::prelude::*;

use crate::algorithm::SALT_LEN;
use crate::error::Error;
use crate::secret::Secret;

verus! {

/// The 32-byte key that the fixed-parameter Argon2id derivation yields
/// for a password (or keyfile contents) and a salt.
pub uninterp spec fn argon2id_of(password: Seq<u8>, salt: Seq<u8>) -> Seq<u8>;

/// Relies on `argon2::Argon2::hash_password_into` with Argon2id,
/// version 0x13 and fixed cost parameters (memory 4096 KiB, 3 passes,
/// parallelism 1, 32-byte output): the output is a pure function of
/// password and salt, and the call succeeds for any password of at most
/// 2^32 - 1 bytes and any salt of 8 to 2^32 - 1 bytes.
#[verifier::external_body]
fn argon2id_derive(password: &[u8], salt: &[u8]) -> (r: [u8; 32])
    requires
        8 <= salt@.len() <= 0xFFFF_FFFF,
        password@.len() <= 0xFFFF_FFFF,
    ensures
        r@ == argon2id_of(password@, salt@),
{
    let params = argon2::Params::new(4096, 3, 1, Some(32)).unwrap();
    let ctx = argon2::Argon2::new(argon2::Algorithm::Argon2id, argon2::Version::V0x13, params);
    let mut out = [0u8; 32];
    ctx.hash_password_into(password, salt, &mut out).unwrap();
    out
}

/// Derive the symmetric key for one file from a password (or raw
/// keyfile bytes) and the file's salt.  The derivation is memory-hard
/// and deterministic, so any two runs with identical inputs produce
/// byte-identical keys.  With the fixed cost parameters this crate
/// uses, derivation never fails on valid input.
pub fn derive(password: &[u8], salt: &[u8]) -> (r: Result<Secret, Error>)
    requires
        salt@.len() == SALT_LEN,
        password@.len() <= 0xFFFF_FFFF,
    ensures
        r matches Ok(s) && s@ == argon2id_of(password@, salt@) && s@.len() == 32,
{
    Ok(Secret::new(argon2id_derive(password, salt)))
}

/// Key derivation is deterministic: identical password and salt always
/// yield the identical 32-byte key.
pub proof fn lemma_derive_deterministic(pw1: Seq<u8>, salt1: Seq<u8>, pw2: Seq<u8>, salt2: Seq<u8>)
    requires
        pw1 == pw2,
        salt1 == salt2,
    ensures
        argon2id_of(pw1, salt1) == argon2id_of(pw2, salt2),
{
}

} // verus!
