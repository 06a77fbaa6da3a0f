use vstd::prelude::*;

use vstd::slice::{slice_subrange, slice_to_vec};

use crate::algorithm::Algorithm;
use crate::error::Error;

verus! {

/// The fixed-layout prefix written before the ciphertext:
/// `salt (16 bytes) || nonce || algorithm tag (1 byte)`.
///
/// In memory mode the nonce field holds the algorithm's full nonce; in
/// stream mode it holds four bytes fewer, the missing bytes being
/// supplied per block as a big-endian counter.  The two widths never
/// coincide across algorithms, so the nonce length tells the mode.
///
/// Because the tag follows a variable-width nonce, a reader tries the
/// three algorithms in ascending order of nonce width (AES-256-GCM,
/// Deoxys-II-256, XChaCha20-Poly1305) and accepts the first whose tag
/// byte matches.  Each position probed for an earlier candidate falls
/// inside a later candidate's nonce field, so a well-formed header
/// (`wf`) keeps those nonce bytes off the earlier tags and is parsed
/// back exactly; the nonce generator enforces this.
#[derive(Clone, Debug, PartialEq, Eq)]
pub struct Header {
    pub salt: Vec<u8>,
    pub nonce: Vec<u8>,
    pub algorithm: Algorithm,
}

/// Width of the stored nonce field for an algorithm and mode.
pub open spec fn stored_nonce_len(alg: Algorithm, stream: bool) -> int {
    alg.spec_nonce_len() - if stream {
        4int
    } else {
        0int
    }
}

/// Position of the algorithm tag byte within the serialized header.
pub open spec fn spec_tag_pos(alg: Algorithm, stream: bool) -> int {
    16 + stored_nonce_len(alg, stream)
}

/// Total width of the serialized header.
pub open spec fn spec_header_len(alg: Algorithm, stream: bool) -> int {
    17 + stored_nonce_len(alg, stream)
}

/// Whether `data` is long enough for this candidate algorithm and holds
/// its tag byte at the position the candidate implies.
pub open spec fn spec_tag_matches(data: Seq<u8>, alg: Algorithm, stream: bool) -> bool {
    &&& data.len() >= spec_header_len(alg, stream)
    &&& data[spec_tag_pos(alg, stream)] == alg.spec_header_tag()
}

/// The algorithm a byte stream announces: candidates are tried in
/// ascending order of nonce width and the first match wins.
pub open spec fn spec_parse_algorithm(data: Seq<u8>, stream: bool) -> Option<Algorithm> {
    if spec_tag_matches(data, Algorithm::Aes256Gcm, stream) {
        Some(Algorithm::Aes256Gcm)
    } else if spec_tag_matches(data, Algorithm::DeoxysII256, stream) {
        Some(Algorithm::DeoxysII256)
    } else if spec_tag_matches(data, Algorithm::XChaCha20Poly1305, stream) {
        Some(Algorithm::XChaCha20Poly1305)
    } else {
        None
    }
}

/// The nonce bytes that sit where an earlier-tried candidate's tag byte
/// would be must differ from that candidate's tag, so that a header
/// holding this nonce is parsed back as itself.
pub open spec fn spec_nonce_unambiguous(alg: Algorithm, nonce: Seq<u8>, stream: bool) -> bool {
    match alg {
        Algorithm::Aes256Gcm => true,
        Algorithm::DeoxysII256 => nonce[stored_nonce_len(Algorithm::Aes256Gcm, stream)]
            != Algorithm::Aes256Gcm.spec_header_tag(),
        Algorithm::XChaCha20Poly1305 => {
            &&& nonce[stored_nonce_len(Algorithm::Aes256Gcm, stream)]
                != Algorithm::Aes256Gcm.spec_header_tag()
            &&& nonce[stored_nonce_len(Algorithm::DeoxysII256, stream)]
                != Algorithm::DeoxysII256.spec_header_tag()
        },
    }
}

impl Header {
    /// Stream mode stores four fewer nonce bytes; the stored widths of
    /// the two modes never coincide, so the width determines the mode.
    pub open spec fn spec_is_stream(self) -> bool {
        self.nonce@.len() == stored_nonce_len(self.algorithm, true)
    }

    pub open spec fn spec_unambiguous(self) -> bool {
        spec_nonce_unambiguous(self.algorithm, self.nonce@, self.spec_is_stream())
    }

    pub open spec fn wf(self) -> bool {
        &&& self.salt@.len() == 16
        &&& (self.nonce@.len() == stored_nonce_len(self.algorithm, false) || self.nonce@.len()
            == stored_nonce_len(self.algorithm, true))
        &&& self.spec_unambiguous()
    }

    /// The serialized bytes: salt, then nonce, then the algorithm tag.
    pub open spec fn spec_serialize(self) -> Seq<u8> {
        self.salt@ + self.nonce@ + seq![self.algorithm.spec_header_tag()]
    }

    pub fn is_stream(&self) -> (r: bool)
        ensures
            r == self.spec_is_stream(),
    {
        let full = self.algorithm.nonce_len();
        self.nonce.len() == full - 4
    }

    /// Serialize to the fixed layout.
    pub fn serialize(&self) -> (r: Vec<u8>)
        ensures
            r@ == self.spec_serialize(),
    {
        let mut out: Vec<u8> = Vec::new();
        out.extend_from_slice(self.salt.as_slice());
        out.extend_from_slice(self.nonce.as_slice());
        out.push(self.algorithm.header_tag());
        proof {
            assert(out@ =~= self.spec_serialize());
        }
        out
    }
}

/// Exec mirror of `spec_tag_matches`.
fn tag_matches(data: &[u8], alg: Algorithm, stream: bool) -> (r: bool)
    ensures
        r == spec_tag_matches(data@, alg, stream),
{
    let snl = alg.nonce_len() - if stream {
        4
    } else {
        0
    };
    if data.len() >= snl + 17 {
        data[snl + 16] == alg.header_tag()
    } else {
        false
    }
}

/// Copy the salt and nonce fields of a matched candidate out of `data`.
fn parse_at(data: &[u8], alg: Algorithm, stream: bool) -> (h: Header)
    requires
        spec_tag_matches(data@, alg, stream),
    ensures
        h.algorithm == alg,
        h.salt@ == data@.subrange(0, 16),
        h.nonce@ == data@.subrange(16, spec_tag_pos(alg, stream)),
        h.nonce@.len() == stored_nonce_len(alg, stream),
        h.spec_is_stream() == stream,
{
    let snl = alg.nonce_len() - if stream {
        4
    } else {
        0
    };
    let salt = slice_to_vec(slice_subrange(data, 0, 16));
    let nonce = slice_to_vec(slice_subrange(data, 16, 16 + snl));
    Header { salt, nonce, algorithm: alg }
}

/// Parse the header at the front of an encrypted payload.  `stream`
/// tells which nonce width to expect; the caller knows it from the
/// payload size.  Fails with `MalformedHeader` exactly when no
/// algorithm's tag matches (the input is too short or the tag byte is
/// unrecognized).
pub fn deserialize(data: &[u8], stream: bool) -> (r: Result<Header, Error>)
    ensures
        match spec_parse_algorithm(data@, stream) {
            Some(alg) => r matches Ok(h) && h.algorithm == alg && h.salt@ == data@.subrange(0, 16)
                && h.nonce@ == data@.subrange(16, spec_tag_pos(alg, stream)) && h.wf()
                && h.spec_is_stream() == stream,
            None => r matches Err(e) && e == Error::MalformedHeader,
        },
{
    if tag_matches(data, Algorithm::Aes256Gcm, stream) {
        Ok(parse_at(data, Algorithm::Aes256Gcm, stream))
    } else if tag_matches(data, Algorithm::DeoxysII256, stream) {
        Ok(parse_at(data, Algorithm::DeoxysII256, stream))
    } else if tag_matches(data, Algorithm::XChaCha20Poly1305, stream) {
        Ok(parse_at(data, Algorithm::XChaCha20Poly1305, stream))
    } else {
        Err(Error::MalformedHeader)
    }
}

/// A well-formed header followed by anything is parsed back as itself:
/// the announced algorithm is its own, and the salt and nonce fields
/// read back unchanged.
pub proof fn lemma_parse_serialize(h: Header, rest: Seq<u8>)
    requires
        h.wf(),
    ensures
        spec_parse_algorithm(h.spec_serialize() + rest, h.spec_is_stream()) == Some(h.algorithm),
        (h.spec_serialize() + rest).subrange(0, 16) == h.salt@,
        (h.spec_serialize() + rest).subrange(16, spec_tag_pos(h.algorithm, h.spec_is_stream()))
            == h.nonce@,
{
    let data = h.spec_serialize() + rest;
    let stream = h.spec_is_stream();
    assert(data.len() >= spec_header_len(h.algorithm, stream));
    assert(data[spec_tag_pos(h.algorithm, stream)] == h.algorithm.spec_header_tag());
    assert(spec_tag_matches(data, h.algorithm, stream));
    assert(data.subrange(0, 16) =~= h.salt@);
    assert(data.subrange(16, spec_tag_pos(h.algorithm, stream)) =~= h.nonce@);
}

} // verus!
