use vstd::prelude::*;

use vstd::slice::{slice_subrange, slice_to_vec};

use crate::algorithm::Algorithm;
use crate::cipher::{open_of, seal_of, Ciphers};
use crate::error::Error;

verus! {

/// Plaintext bytes per stream block; the final block may be shorter.
pub const BLOCK_SIZE: usize = 1048576;

/// Big-endian encoding of the 4-byte block counter that is appended to
/// the base nonce, block 0 first.  Nonces are unique across one file's
/// blocks as long as the file has at most 2^32 blocks, and across files
/// because the base nonce is freshly random per file.
pub open spec fn counter_bytes(i: u32) -> Seq<u8> {
    seq![
        ((i >> 24) & 0xff) as u8,
        ((i >> 16) & 0xff) as u8,
        ((i >> 8) & 0xff) as u8,
        (i & 0xff) as u8,
    ]
}

/// The nonce for block `i`: the base nonce followed by the counter.
pub open spec fn block_nonce_of(base: Seq<u8>, i: u32) -> Seq<u8> {
    base + counter_bytes(i)
}

/// The one-byte associated data that marks a block: 1 for the final
/// block, 0 for a continuation block, so a truncated stream cannot end
/// on a block that authenticates as final.
pub open spec fn block_aad(is_final: bool) -> Seq<u8> {
    if is_final {
        seq![1u8]
    } else {
        seq![0u8]
    }
}

/// The whole stream-mode ciphertext for a plaintext: full continuation
/// blocks, then one final block of whatever remains (possibly a full
/// block, possibly empty when the plaintext is empty).
pub open spec fn spec_stream_seal(
    alg: Algorithm,
    key: Seq<u8>,
    base: Seq<u8>,
    ctr: u32,
    pt: Seq<u8>,
) -> Seq<u8>
    decreases pt.len(),
{
    if pt.len() <= BLOCK_SIZE {
        seal_of(alg, key, block_nonce_of(base, ctr), pt, block_aad(true))
    } else {
        seal_of(alg, key, block_nonce_of(base, ctr), pt.take(BLOCK_SIZE as int), block_aad(false))
            + spec_stream_seal(alg, key, base, ((ctr + 1) as u32), pt.skip(BLOCK_SIZE as int))
    }
}

/// What decoding a stream-mode ciphertext returns.  Chunks of
/// `BLOCK_SIZE + 16` bytes are opened as continuation blocks while more
/// data follows; the last chunk must open as the final block.  A last
/// chunk that opens as a continuation block instead is a truncated
/// stream; a non-last chunk that opens as final is trailing data; a
/// chunk that opens as neither failed authentication.
pub open spec fn spec_stream_open(
    alg: Algorithm,
    key: Seq<u8>,
    base: Seq<u8>,
    ctr: u32,
    ct: Seq<u8>,
) -> Result<Seq<u8>, Error>
    decreases ct.len(),
{
    let chunk = BLOCK_SIZE + 16;
    if ct.len() > chunk {
        match open_of(alg, key, block_nonce_of(base, ctr), ct.take(chunk as int), block_aad(false)) {
            Some(p) => match spec_stream_open(alg, key, base, ((ctr + 1) as u32), ct.skip(chunk as int)) {
                Ok(rest) => Ok(p + rest),
                Err(e) => Err(e),
            },
            None => if open_of(alg, key, block_nonce_of(base, ctr), ct.take(chunk as int), block_aad(true)) is Some {
                Err(Error::UnexpectedTrailingData)
            } else {
                Err(Error::AuthenticationFailed)
            },
        }
    } else if ct.len() < 16 {
        Err(Error::StreamTruncated)
    } else {
        match open_of(alg, key, block_nonce_of(base, ctr), ct, block_aad(true)) {
            Some(p) => Ok(p),
            None => if open_of(alg, key, block_nonce_of(base, ctr), ct, block_aad(false)) is Some {
                Err(Error::StreamTruncated)
            } else {
                Err(Error::AuthenticationFailed)
            },
        }
    }
}

/// Exec mirror of `counter_bytes` appended to a base nonce.
fn block_nonce(base: &[u8], i: u32) -> (r: Vec<u8>)
    requires
        base@.len() <= 64,
    ensures
        r@ == block_nonce_of(base@, i),
{
    let mut out = slice_to_vec(base);
    out.push(((i >> 24) & 0xff) as u8);
    out.push(((i >> 16) & 0xff) as u8);
    out.push(((i >> 8) & 0xff) as u8);
    out.push((i & 0xff) as u8);
    proof {
        assert(out@ =~= block_nonce_of(base@, i));
    }
    out
}

/// Exec mirror of `block_aad`.
fn block_aad_bytes(is_final: bool) -> (r: Vec<u8>)
    ensures
        r@ == block_aad(is_final),
{
    let mut out: Vec<u8> = Vec::new();
    if is_final {
        out.push(1u8);
    } else {
        out.push(0u8);
    }
    proof {
        assert(out@ =~= block_aad(is_final));
    }
    out
}

/// Drives one stream-mode encryption: blocks are sealed strictly in
/// ascending index order, each under the nonce `base || counter`, and
/// sealing the block marked final finishes the stream.
pub struct StreamEncryptor {
    cipher: Ciphers,
    base_nonce: Vec<u8>,
    counter: u32,
    done: bool,
}

impl StreamEncryptor {
    pub closed spec fn spec_cipher(self) -> Ciphers {
        self.cipher
    }

    pub closed spec fn spec_base(self) -> Seq<u8> {
        self.base_nonce@
    }

    pub closed spec fn spec_counter(self) -> u32 {
        self.counter
    }

    pub closed spec fn spec_done(self) -> bool {
        self.done
    }

    pub open spec fn wf(self) -> bool {
        self.spec_base().len() + 4 == self.spec_cipher().spec_algorithm().spec_nonce_len()
    }

    pub fn new(cipher: Ciphers, base_nonce: &[u8]) -> (s: Self)
        requires
            base_nonce@.len() + 4 == cipher.spec_algorithm().spec_nonce_len(),
        ensures
            s.wf(),
            s.spec_cipher() == cipher,
            s.spec_base() == base_nonce@,
            s.spec_counter() == 0,
            !s.spec_done(),
    {
        StreamEncryptor { cipher, base_nonce: slice_to_vec(base_nonce), counter: 0, done: false }
    }

    /// Seal the next block.  A continuation block must hold exactly
    /// `BLOCK_SIZE` bytes; the final block at most that many.
    pub fn encrypt_block(&mut self, plaintext: &[u8], is_final: bool) -> (r: Result<Vec<u8>, Error>)
        requires
            old(self).wf(),
            !old(self).spec_done(),
            old(self).spec_counter() < 0xFFFF_FFFF,
            is_final ==> plaintext@.len() <= BLOCK_SIZE,
            !is_final ==> plaintext@.len() == BLOCK_SIZE,
        ensures
            final(self).wf(),
            final(self).spec_cipher() == old(self).spec_cipher(),
            final(self).spec_base() == old(self).spec_base(),
            final(self).spec_counter() == old(self).spec_counter() + 1,
            final(self).spec_done() == is_final,
            r matches Ok(c) && c@ == seal_of(
                old(self).spec_cipher().spec_algorithm(),
                old(self).spec_cipher().spec_key(),
                block_nonce_of(old(self).spec_base(), old(self).spec_counter()),
                plaintext@,
                block_aad(is_final),
            ) && c@.len() == plaintext@.len() + 16 && open_of(
                old(self).spec_cipher().spec_algorithm(),
                old(self).spec_cipher().spec_key(),
                block_nonce_of(old(self).spec_base(), old(self).spec_counter()),
                c@,
                block_aad(is_final),
            ) == Some(plaintext@),
    {
        let nonce = block_nonce(self.base_nonce.as_slice(), self.counter);
        let aad = block_aad_bytes(is_final);
        let r = self.cipher.encrypt(nonce.as_slice(), plaintext, aad.as_slice());
        self.counter = self.counter + 1;
        self.done = is_final;
        r
    }
}

/// Drives one stream-mode decryption, mirror of `StreamEncryptor`:
/// blocks are opened strictly in ascending index order with the
/// associated data the caller expects for them.
pub struct StreamDecryptor {
    cipher: Ciphers,
    base_nonce: Vec<u8>,
    counter: u32,
    done: bool,
}

impl StreamDecryptor {
    pub closed spec fn spec_cipher(self) -> Ciphers {
        self.cipher
    }

    pub closed spec fn spec_base(self) -> Seq<u8> {
        self.base_nonce@
    }

    pub closed spec fn spec_counter(self) -> u32 {
        self.counter
    }

    pub closed spec fn spec_done(self) -> bool {
        self.done
    }

    pub open spec fn wf(self) -> bool {
        self.spec_base().len() + 4 == self.spec_cipher().spec_algorithm().spec_nonce_len()
    }

    pub fn new(cipher: Ciphers, base_nonce: &[u8]) -> (s: Self)
        requires
            base_nonce@.len() + 4 == cipher.spec_algorithm().spec_nonce_len(),
        ensures
            s.wf(),
            s.spec_cipher() == cipher,
            s.spec_base() == base_nonce@,
            s.spec_counter() == 0,
            !s.spec_done(),
    {
        StreamDecryptor { cipher, base_nonce: slice_to_vec(base_nonce), counter: 0, done: false }
    }

    /// Open the next block with the expected marking.  Succeeds exactly
    /// when the block authenticates under that marking.
    pub fn decrypt_block(&mut self, ciphertext: &[u8], is_final: bool) -> (r: Result<Vec<u8>, Error>)
        requires
            old(self).wf(),
            !old(self).spec_done(),
            old(self).spec_counter() < 0xFFFF_FFFF,
            ciphertext@.len() <= 0xFFFF_FFF0,
        ensures
            final(self).wf(),
            final(self).spec_cipher() == old(self).spec_cipher(),
            final(self).spec_base() == old(self).spec_base(),
            final(self).spec_counter() == old(self).spec_counter() + 1,
            final(self).spec_done() == is_final,
            open_of(
                old(self).spec_cipher().spec_algorithm(),
                old(self).spec_cipher().spec_key(),
                block_nonce_of(old(self).spec_base(), old(self).spec_counter()),
                ciphertext@,
                block_aad(is_final),
            ) matches Some(p) ==> (r matches Ok(v) && v@ == p),
            open_of(
                old(self).spec_cipher().spec_algorithm(),
                old(self).spec_cipher().spec_key(),
                block_nonce_of(old(self).spec_base(), old(self).spec_counter()),
                ciphertext@,
                block_aad(is_final),
            ) is None ==> (r matches Err(e) && e == Error::AuthenticationFailed),
    {
        let nonce = block_nonce(self.base_nonce.as_slice(), self.counter);
        let aad = block_aad_bytes(is_final);
        let r = self.cipher.decrypt(nonce.as_slice(), ciphertext, aad.as_slice());
        self.counter = self.counter + 1;
        self.done = is_final;
        r
    }

    /// Open the next chunk of a stream whose framing is implicit in its
    /// length: a chunk with more data behind it must be a continuation
    /// block (one that authenticates as final instead is trailing
    /// data), and the last chunk must be a final block (one that
    /// authenticates as a continuation block instead is a truncated
    /// stream).
    pub fn decrypt_chunk(&mut self, ciphertext: &[u8], has_more: bool) -> (r: Result<Vec<u8>, Error>)
        requires
            old(self).wf(),
            !old(self).spec_done(),
            old(self).spec_counter() < 0xFFFF_FFFF,
            ciphertext@.len() <= 0xFFFF_FFF0,
        ensures
            final(self).wf(),
            final(self).spec_cipher() == old(self).spec_cipher(),
            final(self).spec_base() == old(self).spec_base(),
            final(self).spec_counter() == old(self).spec_counter() + 1,
            final(self).spec_done() == !has_more,
            ({
                let opened_expected = open_of(
                    old(self).spec_cipher().spec_algorithm(),
                    old(self).spec_cipher().spec_key(),
                    block_nonce_of(old(self).spec_base(), old(self).spec_counter()),
                    ciphertext@,
                    block_aad(!has_more),
                );
                let opened_other = open_of(
                    old(self).spec_cipher().spec_algorithm(),
                    old(self).spec_cipher().spec_key(),
                    block_nonce_of(old(self).spec_base(), old(self).spec_counter()),
                    ciphertext@,
                    block_aad(has_more),
                );
                match r {
                    Ok(v) => opened_expected == Some(v@),
                    Err(e) => opened_expected is None && if opened_other is Some {
                        e == if has_more {
                            Error::UnexpectedTrailingData
                        } else {
                            Error::StreamTruncated
                        }
                    } else {
                        e == Error::AuthenticationFailed
                    },
                }
            }),
    {
        let nonce = block_nonce(self.base_nonce.as_slice(), self.counter);
        let expected_aad = block_aad_bytes(!has_more);
        let r = self.cipher.decrypt(nonce.as_slice(), ciphertext, expected_aad.as_slice());
        self.counter = self.counter + 1;
        self.done = !has_more;
        match r {
            Ok(v) => Ok(v),
            Err(_) => {
                let other_aad = block_aad_bytes(has_more);
                match self.cipher.decrypt(nonce.as_slice(), ciphertext, other_aad.as_slice()) {
                    Ok(_) => if has_more {
                        Err(Error::UnexpectedTrailingData)
                    } else {
                        Err(Error::StreamTruncated)
                    },
                    Err(_) => Err(Error::AuthenticationFailed),
                }
            },
        }
    }
}

/// Seal a whole plaintext in stream mode.  The result both equals the
/// stream ciphertext spec and decodes back to the plaintext.
pub fn seal_blocks(cipher: &Ciphers, base_nonce: &[u8], ctr: u32, plaintext: &[u8]) -> (r: Vec<u8>)
    requires
        base_nonce@.len() + 4 == cipher.spec_algorithm().spec_nonce_len(),
        plaintext@.len() <= 0xFFFF_0000,
        ctr + plaintext@.len() < 0xFFFF_FFFF,
    ensures
        r@ == spec_stream_seal(cipher.spec_algorithm(), cipher.spec_key(), base_nonce@, ctr, plaintext@),
        spec_stream_open(cipher.spec_algorithm(), cipher.spec_key(), base_nonce@, ctr, r@) == Ok::<
            Seq<u8>,
            Error,
        >(plaintext@),
        plaintext@.len() <= BLOCK_SIZE ==> r@.len() == plaintext@.len() + 16,
        plaintext@.len() > BLOCK_SIZE ==> r@.len() >= plaintext@.len() + 32,
    decreases plaintext@.len(),
{
    let nonce = block_nonce(base_nonce, ctr);
    if plaintext.len() <= BLOCK_SIZE {
        let aad = block_aad_bytes(true);
        let r = match cipher.encrypt(nonce.as_slice(), plaintext, aad.as_slice()) {
            Ok(c) => c,
            Err(_) => {
                proof {
                    assert(false);
                }
                Vec::new()
            },
        };
        r
    } else {
        let aad = block_aad_bytes(false);
        let head_pt = slice_subrange(plaintext, 0, BLOCK_SIZE);
        let mut out = match cipher.encrypt(nonce.as_slice(), head_pt, aad.as_slice()) {
            Ok(c) => c,
            Err(_) => {
                proof {
                    assert(false);
                }
                Vec::new()
            },
        };
        let rest_pt = slice_subrange(plaintext, BLOCK_SIZE, plaintext.len());
        let mut rest = seal_blocks(cipher, base_nonce, ctr + 1, rest_pt);
        let ghost head = out@;
        out.append(&mut rest);
        proof {
            let alg = cipher.spec_algorithm();
            let key = cipher.spec_key();
            let chunk = BLOCK_SIZE + 16;
            assert(head_pt@ == plaintext@.take(BLOCK_SIZE as int));
            assert(rest_pt@ == plaintext@.skip(BLOCK_SIZE as int));
            assert(out@ == head + spec_stream_seal(alg, key, base_nonce@, ((ctr + 1) as u32), plaintext@.skip(BLOCK_SIZE as int)));
            assert(out@ == spec_stream_seal(alg, key, base_nonce@, ctr, plaintext@));
            assert(out@.len() > chunk);
            assert(out@.take(chunk as int) =~= head);
            assert(out@.skip(chunk as int) =~= spec_stream_seal(alg, key, base_nonce@, ((ctr + 1) as u32), plaintext@.skip(BLOCK_SIZE as int)));
            assert(spec_stream_open(alg, key, base_nonce@, ctr, out@) == Ok::<Seq<u8>, Error>(plaintext@.take(BLOCK_SIZE as int) + plaintext@.skip(BLOCK_SIZE as int)));
            assert(plaintext@.take(BLOCK_SIZE as int) + plaintext@.skip(BLOCK_SIZE as int) =~= plaintext@);
        }
        out
    }
}

/// Open a whole stream-mode ciphertext; the result is exactly what
/// `spec_stream_open` says, so truncation and trailing data are
/// reported as such and never as success.
pub fn open_blocks(cipher: &Ciphers, base_nonce: &[u8], ctr: u32, ciphertext: &[u8]) -> (r: Result<
    Vec<u8>,
    Error,
>)
    requires
        base_nonce@.len() + 4 == cipher.spec_algorithm().spec_nonce_len(),
        ciphertext@.len() <= 0xFFFF_8000,
        ctr + ciphertext@.len() < 0xFFFF_FFFF,
    ensures
        match r {
            Ok(v) => spec_stream_open(cipher.spec_algorithm(), cipher.spec_key(), base_nonce@, ctr, ciphertext@)
                == Ok::<Seq<u8>, Error>(v@),
            Err(e) => spec_stream_open(cipher.spec_algorithm(), cipher.spec_key(), base_nonce@, ctr, ciphertext@)
                == Err::<Seq<u8>, Error>(e),
        },
    decreases ciphertext@.len(),
{
    let chunk = BLOCK_SIZE + 16;
    let nonce = block_nonce(base_nonce, ctr);
    if ciphertext.len() > chunk {
        let head = slice_subrange(ciphertext, 0, chunk);
        let aad = block_aad_bytes(false);
        match cipher.decrypt(nonce.as_slice(), head, aad.as_slice()) {
            Ok(mut p) => {
                let rest_ct = slice_subrange(ciphertext, chunk, ciphertext.len());
                proof {
                    assert(head@ == ciphertext@.take(chunk as int));
                    assert(rest_ct@ == ciphertext@.skip(chunk as int));
                }
                match open_blocks(cipher, base_nonce, ctr + 1, rest_ct) {
                    Ok(mut rest) => {
                        p.append(&mut rest);
                        Ok(p)
                    },
                    Err(e) => Err(e),
                }
            },
            Err(_) => {
                let final_aad = block_aad_bytes(true);
                proof {
                    assert(head@ == ciphertext@.take(chunk as int));
                }
                match cipher.decrypt(nonce.as_slice(), head, final_aad.as_slice()) {
                    Ok(_) => Err(Error::UnexpectedTrailingData),
                    Err(_) => Err(Error::AuthenticationFailed),
                }
            },
        }
    } else if ciphertext.len() < 16 {
        Err(Error::StreamTruncated)
    } else {
        let aad = block_aad_bytes(true);
        match cipher.decrypt(nonce.as_slice(), ciphertext, aad.as_slice()) {
            Ok(p) => Ok(p),
            Err(_) => {
                let cont_aad = block_aad_bytes(false);
                match cipher.decrypt(nonce.as_slice(), ciphertext, cont_aad.as_slice()) {
                    Ok(_) => Err(Error::StreamTruncated),
                    Err(_) => Err(Error::AuthenticationFailed),
                }
            },
        }
    }
}

/// Whether every `BLOCK_SIZE + 16` chunk of `ct` opens as a continuation
/// block, and the last one does not also open as a final block: the
/// shape of a stream ciphertext whose trailing final block was removed.
pub open spec fn all_continuation_blocks(
    alg: Algorithm,
    key: Seq<u8>,
    base: Seq<u8>,
    ctr: u32,
    ct: Seq<u8>,
) -> bool
    decreases ct.len(),
{
    let chunk = BLOCK_SIZE + 16;
    if ct.len() == chunk {
        open_of(alg, key, block_nonce_of(base, ctr), ct, block_aad(false)) is Some && open_of(
            alg,
            key,
            block_nonce_of(base, ctr),
            ct,
            block_aad(true),
        ) is None
    } else {
        ct.len() > chunk && open_of(alg, key, block_nonce_of(base, ctr), ct.take(chunk as int), block_aad(false)) is Some
            && all_continuation_blocks(alg, key, base, ((ctr + 1) as u32), ct.skip(chunk as int))
    }
}

/// Truncation is detected: a stream ciphertext that ends on a
/// continuation block — every chunk opens as a continuation block and
/// the last does not authenticate as final — decodes to
/// `StreamTruncated`, never to a shorter "successful" plaintext.
pub proof fn lemma_stream_truncated(alg: Algorithm, key: Seq<u8>, base: Seq<u8>, ctr: u32, ct: Seq<u8>)
    requires
        all_continuation_blocks(alg, key, base, ctr, ct),
    ensures
        spec_stream_open(alg, key, base, ctr, ct) == Err::<Seq<u8>, Error>(Error::StreamTruncated),
    decreases ct.len(),
{
    let chunk = BLOCK_SIZE + 16;
    if ct.len() == chunk {
    } else {
        lemma_stream_truncated(alg, key, base, ((ctr + 1) as u32), ct.skip(chunk as int));
    }
}

} // verus!
