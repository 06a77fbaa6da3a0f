use vstd::prelude::*;

use aead::generic_array::GenericArray;
use aead::{Aead, KeyInit, Payload};

use crate::algorithm::Algorithm;
use crate::error::Error;
use crate::secret::Secret;

verus! {

/// The ciphertext (encrypted bytes followed by the 16-byte tag) that
/// AES-256-GCM produces for a key, nonce, plaintext and associated data.
pub uninterp spec fn aes256gcm_seal(key: Seq<u8>, nonce: Seq<u8>, plaintext: Seq<u8>, aad: Seq<u8>) -> Seq<u8>;

/// What AES-256-GCM decryption returns for a key, nonce, ciphertext and
/// associated data: the plaintext, or `None` when the tag does not verify.
pub uninterp spec fn aes256gcm_open(key: Seq<u8>, nonce: Seq<u8>, ciphertext: Seq<u8>, aad: Seq<u8>) -> Option<Seq<u8>>;

/// The ciphertext XChaCha20-Poly1305 produces; see `aes256gcm_seal`.
pub uninterp spec fn xchacha20poly1305_seal(key: Seq<u8>, nonce: Seq<u8>, plaintext: Seq<u8>, aad: Seq<u8>) -> Seq<u8>;

/// What XChaCha20-Poly1305 decryption returns; see `aes256gcm_open`.
pub uninterp spec fn xchacha20poly1305_open(key: Seq<u8>, nonce: Seq<u8>, ciphertext: Seq<u8>, aad: Seq<u8>) -> Option<Seq<u8>>;

/// The ciphertext Deoxys-II-256 produces; see `aes256gcm_seal`.
pub uninterp spec fn deoxys_ii_seal(key: Seq<u8>, nonce: Seq<u8>, plaintext: Seq<u8>, aad: Seq<u8>) -> Seq<u8>;

/// What Deoxys-II-256 decryption returns; see `aes256gcm_open`.
pub uninterp spec fn deoxys_ii_open(key: Seq<u8>, nonce: Seq<u8>, ciphertext: Seq<u8>, aad: Seq<u8>) -> Option<Seq<u8>>;

/// The ciphertext the given algorithm produces.
pub open spec fn seal_of(alg: Algorithm, key: Seq<u8>, nonce: Seq<u8>, plaintext: Seq<u8>, aad: Seq<u8>) -> Seq<u8> {
    match alg {
        Algorithm::Aes256Gcm => aes256gcm_seal(key, nonce, plaintext, aad),
        Algorithm::XChaCha20Poly1305 => xchacha20poly1305_seal(key, nonce, plaintext, aad),
        Algorithm::DeoxysII256 => deoxys_ii_seal(key, nonce, plaintext, aad),
    }
}

/// What decryption under the given algorithm returns.
pub open spec fn open_of(alg: Algorithm, key: Seq<u8>, nonce: Seq<u8>, ciphertext: Seq<u8>, aad: Seq<u8>) -> Option<Seq<u8>> {
    match alg {
        Algorithm::Aes256Gcm => aes256gcm_open(key, nonce, ciphertext, aad),
        Algorithm::XChaCha20Poly1305 => xchacha20poly1305_open(key, nonce, ciphertext, aad),
        Algorithm::DeoxysII256 => deoxys_ii_open(key, nonce, ciphertext, aad),
    }
}

/// Relies on `aes_gcm::Aes256Gcm` (`KeyInit::new_from_slice`, then
/// `Aead::encrypt`): the ciphertext is a pure function of key, nonce,
/// plaintext and associated data; it is the encrypted plaintext followed
/// by the 16-byte tag, `Aead::decrypt` inverts it, and encryption
/// succeeds for messages far below the cipher's 2^36-byte limit.
#[verifier::external_body]
fn aes256gcm_encrypt(key: &[u8], nonce: &[u8], plaintext: &[u8], aad: &[u8]) -> (r: Vec<u8>)
    requires
        key@.len() == 32,
        nonce@.len() == 12,
        plaintext@.len() <= 0xFFFF_FF00,
        aad@.len() <= 64,
    ensures
        r@ == aes256gcm_seal(key@, nonce@, plaintext@, aad@),
        r@.len() == plaintext@.len() + 16,
        aes256gcm_open(key@, nonce@, r@, aad@) == Some(plaintext@),
{
    let cipher = aes_gcm::Aes256Gcm::new_from_slice(key).unwrap();
    cipher.encrypt(GenericArray::from_slice(nonce), Payload { msg: plaintext, aad }).unwrap()
}

/// Relies on `aes_gcm::Aes256Gcm` (`KeyInit::new_from_slice`, then
/// `Aead::decrypt`): the result is a pure function of key, nonce,
/// ciphertext and associated data; on success the plaintext is the
/// ciphertext without its 16-byte tag, and a tag that does not verify is
/// reported as an error, never a panic.
#[verifier::external_body]
fn aes256gcm_decrypt(key: &[u8], nonce: &[u8], ciphertext: &[u8], aad: &[u8]) -> (r: Option<Vec<u8>>)
    requires
        key@.len() == 32,
        nonce@.len() == 12,
        ciphertext@.len() <= 0xFFFF_FFF0,
        aad@.len() <= 64,
    ensures
        r matches Some(p) ==> aes256gcm_open(key@, nonce@, ciphertext@, aad@) == Some(p@)
            && p@.len() + 16 == ciphertext@.len(),
        r is None ==> aes256gcm_open(key@, nonce@, ciphertext@, aad@) is None,
{
    let cipher = aes_gcm::Aes256Gcm::new_from_slice(key).unwrap();
    match cipher.decrypt(GenericArray::from_slice(nonce), Payload { msg: ciphertext, aad }) {
        Ok(p) => Some(p),
        Err(_) => None,
    }
}

/// Relies on `chacha20poly1305::XChaCha20Poly1305` (`KeyInit::new_from_slice`,
/// then `Aead::encrypt`); same shape as `aes256gcm_encrypt`, with a
/// 24-byte nonce and a message limit of 2^38 bytes.
#[verifier::external_body]
fn xchacha20poly1305_encrypt(key: &[u8], nonce: &[u8], plaintext: &[u8], aad: &[u8]) -> (r: Vec<u8>)
    requires
        key@.len() == 32,
        nonce@.len() == 24,
        plaintext@.len() <= 0xFFFF_FF00,
        aad@.len() <= 64,
    ensures
        r@ == xchacha20poly1305_seal(key@, nonce@, plaintext@, aad@),
        r@.len() == plaintext@.len() + 16,
        xchacha20poly1305_open(key@, nonce@, r@, aad@) == Some(plaintext@),
{
    let cipher = chacha20poly1305::XChaCha20Poly1305::new_from_slice(key).unwrap();
    cipher.encrypt(GenericArray::from_slice(nonce), Payload { msg: plaintext, aad }).unwrap()
}

/// Relies on `chacha20poly1305::XChaCha20Poly1305` (`KeyInit::new_from_slice`,
/// then `Aead::decrypt`); same shape as `aes256gcm_decrypt`.
#[verifier::external_body]
fn xchacha20poly1305_decrypt(key: &[u8], nonce: &[u8], ciphertext: &[u8], aad: &[u8]) -> (r: Option<Vec<u8>>)
    requires
        key@.len() == 32,
        nonce@.len() == 24,
        ciphertext@.len() <= 0xFFFF_FFF0,
        aad@.len() <= 64,
    ensures
        r matches Some(p) ==> xchacha20poly1305_open(key@, nonce@, ciphertext@, aad@) == Some(p@)
            && p@.len() + 16 == ciphertext@.len(),
        r is None ==> xchacha20poly1305_open(key@, nonce@, ciphertext@, aad@) is None,
{
    let cipher = chacha20poly1305::XChaCha20Poly1305::new_from_slice(key).unwrap();
    match cipher.decrypt(GenericArray::from_slice(nonce), Payload { msg: ciphertext, aad }) {
        Ok(p) => Some(p),
        Err(_) => None,
    }
}

/// Relies on `deoxys::DeoxysII256` (`KeyInit::new_from_slice`, then
/// `Aead::encrypt`); same shape as `aes256gcm_encrypt`, with a 15-byte
/// nonce; its encryption has no failure path.
#[verifier::external_body]
fn deoxys_ii_encrypt(key: &[u8], nonce: &[u8], plaintext: &[u8], aad: &[u8]) -> (r: Vec<u8>)
    requires
        key@.len() == 32,
        nonce@.len() == 15,
        plaintext@.len() <= 0xFFFF_FF00,
        aad@.len() <= 64,
    ensures
        r@ == deoxys_ii_seal(key@, nonce@, plaintext@, aad@),
        r@.len() == plaintext@.len() + 16,
        deoxys_ii_open(key@, nonce@, r@, aad@) == Some(plaintext@),
{
    let cipher = deoxys::DeoxysII256::new_from_slice(key).unwrap();
    cipher.encrypt(GenericArray::from_slice(nonce), Payload { msg: plaintext, aad }).unwrap()
}

/// Relies on `deoxys::DeoxysII256` (`KeyInit::new_from_slice`, then
/// `Aead::decrypt`); same shape as `aes256gcm_decrypt`.
#[verifier::external_body]
fn deoxys_ii_decrypt(key: &[u8], nonce: &[u8], ciphertext: &[u8], aad: &[u8]) -> (r: Option<Vec<u8>>)
    requires
        key@.len() == 32,
        nonce@.len() == 15,
        ciphertext@.len() <= 0xFFFF_FFF0,
        aad@.len() <= 64,
    ensures
        r matches Some(p) ==> deoxys_ii_open(key@, nonce@, ciphertext@, aad@) == Some(p@)
            && p@.len() + 16 == ciphertext@.len(),
        r is None ==> deoxys_ii_open(key@, nonce@, ciphertext@, aad@) is None,
{
    let cipher = deoxys::DeoxysII256::new_from_slice(key).unwrap();
    match cipher.decrypt(GenericArray::from_slice(nonce), Payload { msg: ciphertext, aad }) {
        Ok(p) => Some(p),
        Err(_) => None,
    }
}

/// One initialized AEAD cipher, bound to exactly one key and one
/// algorithm.  Stateless across calls except for the key itself, so it
/// is safe for repeated encrypt and decrypt calls with different nonces.
pub enum Ciphers {
    Aes256Gcm([u8; 32]),
    XChaCha([u8; 32]),
    DeoxysII([u8; 32]),
}

impl Ciphers {
    /// The key this engine was initialized with.
    pub closed spec fn spec_key(self) -> Seq<u8> {
        match self {
            Ciphers::Aes256Gcm(k) => k@,
            Ciphers::XChaCha(k) => k@,
            Ciphers::DeoxysII(k) => k@,
        }
    }

    /// The algorithm this engine dispatches to.
    pub closed spec fn spec_algorithm(self) -> Algorithm {
        match self {
            Ciphers::Aes256Gcm(_) => Algorithm::Aes256Gcm,
            Ciphers::XChaCha(_) => Algorithm::XChaCha20Poly1305,
            Ciphers::DeoxysII(_) => Algorithm::DeoxysII256,
        }
    }

    /// Consume the derived key and bind it to an algorithm.  The key
    /// length is checked, not assumed; the secret's own buffer is wiped
    /// when it is dropped here.
    pub fn initialize(key: Secret, algorithm: Algorithm) -> (r: Result<Ciphers, Error>)
        ensures
            key@.len() == 32 ==> (r matches Ok(c) && c.spec_key() == key@ && c.spec_algorithm()
                == algorithm),
            key@.len() != 32 ==> (r matches Err(e) && e == Error::CipherInitFailed),
    {
        if key.len() != 32 {
            return Err(Error::CipherInitFailed);
        }
        let exposed = key.expose();
        let mut k = [0u8; 32];
        let mut i: usize = 0;
        while i < 32
            invariant
                i <= 32,
                exposed@.len() == 32,
                forall|j: int| 0 <= j < i ==> k@[j] == exposed@[j],
            decreases 32 - i,
        {
            k[i] = exposed[i];
            i += 1;
        }
        assert(k@ =~= key@);
        match algorithm {
            Algorithm::Aes256Gcm => Ok(Ciphers::Aes256Gcm(k)),
            Algorithm::XChaCha20Poly1305 => Ok(Ciphers::XChaCha(k)),
            Algorithm::DeoxysII256 => Ok(Ciphers::DeoxysII(k)),
        }
    }

    /// Seal a message: the result is the encrypted plaintext followed by
    /// the 16-byte tag, and decrypting it with the same nonce and
    /// associated data gives the plaintext back.
    pub fn encrypt(&self, nonce: &[u8], plaintext: &[u8], aad: &[u8]) -> (r: Result<Vec<u8>, Error>)
        requires
            nonce@.len() == self.spec_algorithm().spec_nonce_len(),
            plaintext@.len() <= 0xFFFF_FF00,
            aad@.len() <= 64,
        ensures
            r matches Ok(c) && c@ == seal_of(self.spec_algorithm(), self.spec_key(), nonce@, plaintext@, aad@)
                && c@.len() == plaintext@.len() + 16
                && open_of(self.spec_algorithm(), self.spec_key(), nonce@, c@, aad@) == Some(plaintext@),
    {
        match self {
            Ciphers::Aes256Gcm(k) => Ok(aes256gcm_encrypt(k.as_slice(), nonce, plaintext, aad)),
            Ciphers::XChaCha(k) => Ok(xchacha20poly1305_encrypt(k.as_slice(), nonce, plaintext, aad)),
            Ciphers::DeoxysII(k) => Ok(deoxys_ii_encrypt(k.as_slice(), nonce, plaintext, aad)),
        }
    }

    /// Open a sealed message.  Succeeds exactly when the tag verifies;
    /// a failure is reported as `AuthenticationFailed` and discloses
    /// nothing further.
    pub fn decrypt(&self, nonce: &[u8], ciphertext: &[u8], aad: &[u8]) -> (r: Result<Vec<u8>, Error>)
        requires
            nonce@.len() == self.spec_algorithm().spec_nonce_len(),
            ciphertext@.len() <= 0xFFFF_FFF0,
            aad@.len() <= 64,
        ensures
            open_of(self.spec_algorithm(), self.spec_key(), nonce@, ciphertext@, aad@) matches Some(p)
                ==> (r matches Ok(v) && v@ == p && p.len() + 16 == ciphertext@.len()),
            open_of(self.spec_algorithm(), self.spec_key(), nonce@, ciphertext@, aad@) is None
                ==> (r matches Err(e) && e == Error::AuthenticationFailed),
    {
        let opened = match self {
            Ciphers::Aes256Gcm(k) => aes256gcm_decrypt(k.as_slice(), nonce, ciphertext, aad),
            Ciphers::XChaCha(k) => xchacha20poly1305_decrypt(k.as_slice(), nonce, ciphertext, aad),
            Ciphers::DeoxysII(k) => deoxys_ii_decrypt(k.as_slice(), nonce, ciphertext, aad),
        };
        match opened {
            Some(p) => Ok(p),
            None => Err(Error::AuthenticationFailed),
        }
    }
}

} // verus!
