use vstd::prelude::*;

use vstd::slice::{slice_subrange, slice_to_vec};

use crate::algorithm::Algorithm;
use crate::cipher::{open_of, seal_of, Ciphers};
use crate::error::Error;
use crate::header::{
    deserialize, spec_header_len, spec_nonce_unambiguous, spec_parse_algorithm, spec_tag_pos,
    stored_nonce_len, Header, lemma_parse_serialize,
};
use crate::kdf::argon2id_of;
use crate::rng::random_bytes;
use crate::stream::{open_blocks, seal_blocks, spec_stream_open, spec_stream_seal, BLOCK_SIZE};

verus! {

/// Whether a payload is processed whole or block by block.
#[derive(Clone, Copy, PartialEq, Eq, Structural, Debug)]
pub enum Mode {
    Memory,
    Stream,
}

/// The exact memory/stream boundary: an encrypted payload of at most
/// this many bytes is handled in memory mode.  It is one stream block
/// plus its tag, plus the four per-block counter bytes, plus the widest
/// header (41 bytes, for XChaCha20-Poly1305 in memory mode).
pub const MODE_THRESHOLD: usize = 1048576 + 16 + 4 + 41;

/// The size the whole encrypted payload would have if the plaintext
/// were sealed in memory mode.
pub open spec fn spec_memory_encrypted_len(alg: Algorithm, pt_len: int) -> int {
    spec_header_len(alg, false) + pt_len + 16
}

/// Memory mode is chosen exactly when the memory-mode payload fits the
/// threshold.
pub open spec fn spec_auto_mode(alg: Algorithm, pt_len: int) -> Mode {
    if spec_memory_encrypted_len(alg, pt_len) <= MODE_THRESHOLD {
        Mode::Memory
    } else {
        Mode::Stream
    }
}

/// Pick the mode for a plaintext: memory below the boundary, stream
/// above it.  The comparison is exact and reproducible, because it
/// determines how the payload will be parsed when it is decrypted.
pub fn select_mode(algorithm: Algorithm, plaintext_len: usize) -> (m: Mode)
    requires
        plaintext_len <= 0xFFFF_0000,
    ensures
        m == spec_auto_mode(algorithm, plaintext_len as int),
{
    let header_len = algorithm.nonce_len() + 17;
    if header_len + plaintext_len + 16 <= MODE_THRESHOLD {
        Mode::Memory
    } else {
        Mode::Stream
    }
}

/// A fresh random nonce for one encryption, of the width the mode
/// stores.  The one or two bytes that would sit where an earlier-tried
/// parse candidate's tag byte lives are kept off that tag value, so the
/// header parses back unambiguously.
pub fn generate_nonce(algorithm: Algorithm, stream: bool) -> (r: Vec<u8>)
    ensures
        r@.len() == stored_nonce_len(algorithm, stream),
        spec_nonce_unambiguous(algorithm, r@, stream),
{
    let shrink: usize = if stream {
        4
    } else {
        0
    };
    let width = algorithm.nonce_len() - shrink;
    let mut v = random_bytes(width);
    let aes_guard = 12 - shrink;
    match algorithm {
        Algorithm::Aes256Gcm => {},
        Algorithm::DeoxysII256 => {
            if v[aes_guard] == 1 {
                v[aes_guard] = 0;
            }
        },
        Algorithm::XChaCha20Poly1305 => {
            if v[aes_guard] == 1 {
                v[aes_guard] = 0;
            }
            let deoxys_guard = 15 - shrink;
            if v[deoxys_guard] == 3 {
                v[deoxys_guard] = 0;
            }
        },
    }
    v
}

/// The whole encrypted payload: the serialized header, then the
/// memory-mode ciphertext or the stream-mode block sequence.
pub open spec fn spec_encrypt_bytes(
    alg: Algorithm,
    key: Seq<u8>,
    salt: Seq<u8>,
    nonce: Seq<u8>,
    pt: Seq<u8>,
    stream: bool,
) -> Seq<u8> {
    let hdr = salt + nonce + seq![alg.spec_header_tag()];
    if stream {
        hdr + spec_stream_seal(alg, key, nonce, 0, pt)
    } else {
        hdr + seal_of(alg, key, nonce, pt, Seq::<u8>::empty())
    }
}

/// What decrypting an encrypted payload with a password returns: the
/// mode is read off the payload size, the header parsed, the key derived
/// from the password and the header's salt, and the body opened.
pub open spec fn spec_decrypt_bytes(data: Seq<u8>, password: Seq<u8>) -> Result<Seq<u8>, Error> {
    let stream = data.len() > MODE_THRESHOLD;
    match spec_parse_algorithm(data, stream) {
        None => Err(Error::MalformedHeader),
        Some(alg) => {
            let key = argon2id_of(password, data.subrange(0, 16));
            let nonce = data.subrange(16, spec_tag_pos(alg, stream));
            let body = data.skip(spec_header_len(alg, stream));
            if stream {
                spec_stream_open(alg, key, nonce, 0, body)
            } else {
                match open_of(alg, key, nonce, body, Seq::<u8>::empty()) {
                    Some(p) => Ok(p),
                    None => Err(Error::AuthenticationFailed),
                }
            }
        },
    }
}

/// Encrypt a whole plaintext under a password, salt and base nonce.
/// The result is the exact payload `spec_encrypt_bytes` describes, and
/// decrypting it with the same password gives the plaintext back — for
/// every algorithm, key and plaintext, including the empty one.
///
/// The mode is the caller's choice, but each mode only accepts sizes
/// that will be read back in that mode: memory for payloads up to the
/// threshold, stream for plaintexts beyond one block.
pub fn encrypt_bytes(
    plaintext: &[u8],
    password: &[u8],
    salt: &[u8],
    base_nonce: &[u8],
    algorithm: Algorithm,
    mode: Mode,
) -> (r: Result<Vec<u8>, Error>)
    requires
        salt@.len() == 16,
        password@.len() <= 0xFFFF_FFFF,
        plaintext@.len() <= 0xFFFF_0000,
        spec_nonce_unambiguous(algorithm, base_nonce@, mode == Mode::Stream),
        mode == Mode::Memory ==> base_nonce@.len() == algorithm.spec_nonce_len()
            && spec_memory_encrypted_len(algorithm, plaintext@.len() as int) <= MODE_THRESHOLD,
        mode == Mode::Stream ==> base_nonce@.len() + 4 == algorithm.spec_nonce_len()
            && plaintext@.len() > BLOCK_SIZE && spec_header_len(algorithm, true)
            + plaintext@.len() + 32 > MODE_THRESHOLD,
    ensures
        r matches Ok(out) && out@ == spec_encrypt_bytes(
            algorithm,
            argon2id_of(password@, salt@),
            salt@,
            base_nonce@,
            plaintext@,
            mode == Mode::Stream,
        ) && spec_decrypt_bytes(out@, password@) == Ok::<Seq<u8>, Error>(plaintext@),
{
    let is_stream = match mode {
        Mode::Stream => true,
        Mode::Memory => false,
    };
    let secret = match crate::kdf::derive(password, salt) {
        Ok(s) => s,
        Err(e) => {
            return Err(e);
        },
    };
    let cipher = match Ciphers::initialize(secret, algorithm) {
        Ok(c) => c,
        Err(e) => {
            return Err(e);
        },
    };
    let header = Header {
        salt: slice_to_vec(salt),
        nonce: slice_to_vec(base_nonce),
        algorithm,
    };
    let mut out = header.serialize();
    let mut body = if is_stream {
        seal_blocks(&cipher, base_nonce, 0, plaintext)
    } else {
        let aad: Vec<u8> = Vec::new();
        match cipher.encrypt(base_nonce, plaintext, aad.as_slice()) {
            Ok(c) => c,
            Err(_) => {
                proof {
                    assert(false);
                }
                Vec::new()
            },
        }
    };
    let ghost hdr_seq = out@;
    let ghost body_seq = body@;
    out.append(&mut body);
    proof {
        let key = argon2id_of(password@, salt@);
        assert(header.wf());
        assert(header.spec_is_stream() == is_stream);
        assert(hdr_seq.len() == spec_header_len(algorithm, is_stream));
        assert(out@ =~= spec_encrypt_bytes(algorithm, key, salt@, base_nonce@, plaintext@, is_stream));
        // The payload size puts the reader in the same mode the writer used.
        if is_stream {
            assert(out@.len() > MODE_THRESHOLD);
        } else {
            assert(out@.len() <= MODE_THRESHOLD);
        }
        lemma_parse_serialize(header, body_seq);
        assert(hdr_seq == header.spec_serialize());
        assert(out@ == header.spec_serialize() + body_seq);
        assert(spec_parse_algorithm(out@, is_stream) == Some(algorithm));
        assert(out@.subrange(0, 16) == salt@);
        assert(out@.subrange(16, spec_tag_pos(algorithm, is_stream)) == base_nonce@);
        assert(out@.skip(spec_header_len(algorithm, is_stream)) =~= body_seq);
        assert(spec_decrypt_bytes(out@, password@) == Ok::<Seq<u8>, Error>(plaintext@));
    }
    Ok(out)
}

/// Decrypt a whole encrypted payload with a password.  The result is
/// exactly what `spec_decrypt_bytes` says: the plaintext when header,
/// key and every authentication tag check out, and otherwise the one
/// error that names what failed — `MalformedHeader`,
/// `AuthenticationFailed`, `StreamTruncated` or `UnexpectedTrailingData`.
pub fn decrypt_bytes(data: &[u8], password: &[u8]) -> (r: Result<Vec<u8>, Error>)
    requires
        data@.len() <= 0xFFFF_8000,
        password@.len() <= 0xFFFF_FFFF,
    ensures
        match r {
            Ok(v) => spec_decrypt_bytes(data@, password@) == Ok::<Seq<u8>, Error>(v@),
            Err(e) => spec_decrypt_bytes(data@, password@) == Err::<Seq<u8>, Error>(e),
        },
{
    let stream = data.len() > MODE_THRESHOLD;
    let h = match deserialize(data, stream) {
        Ok(h) => h,
        Err(e) => {
            return Err(e);
        },
    };
    let secret = match crate::kdf::derive(password, h.salt.as_slice()) {
        Ok(s) => s,
        Err(e) => {
            return Err(e);
        },
    };
    let cipher = match Ciphers::initialize(secret, h.algorithm) {
        Ok(c) => c,
        Err(e) => {
            return Err(e);
        },
    };
    let header_len = 17 + h.nonce.len();
    let body = slice_subrange(data, header_len, data.len());
    proof {
        assert(body@ == data@.skip(spec_header_len(h.algorithm, stream)));
    }
    if stream {
        open_blocks(&cipher, h.nonce.as_slice(), 0, body)
    } else {
        let aad: Vec<u8> = Vec::new();
        cipher.decrypt(h.nonce.as_slice(), body, aad.as_slice())
    }
}

/// Encrypt with a fresh random salt and base nonce, choosing the mode
/// from the plaintext size.  Whatever salt and nonce were drawn, the
/// result decrypts back to the plaintext with the same password.
pub fn encrypt_bytes_auto(plaintext: &[u8], password: &[u8], algorithm: Algorithm) -> (r: Result<
    Vec<u8>,
    Error,
>)
    requires
        plaintext@.len() <= 0xFFFF_0000,
        password@.len() <= 0xFFFF_FFFF,
    ensures
        r matches Ok(out) && spec_decrypt_bytes(out@, password@) == Ok::<Seq<u8>, Error>(
            plaintext@,
        ),
{
    let mode = select_mode(algorithm, plaintext.len());
    let is_stream = match mode {
        Mode::Stream => true,
        Mode::Memory => false,
    };
    let salt = random_bytes(16);
    let nonce = generate_nonce(algorithm, is_stream);
    proof {
        assert(spec_header_len(algorithm, false) <= 41);
        if mode == Mode::Stream {
            assert(spec_memory_encrypted_len(algorithm, plaintext@.len() as int)
                > MODE_THRESHOLD);
            assert(plaintext@.len() > BLOCK_SIZE);
            assert(spec_header_len(algorithm, true) + plaintext@.len() + 32 > MODE_THRESHOLD);
        }
    }
    encrypt_bytes(plaintext, password, salt.as_slice(), nonce.as_slice(), algorithm, mode)
}

} // verus!
