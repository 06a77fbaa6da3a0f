use vstd::prelude::*;

verus! {

/// The 32-byte BLAKE3 digest of a byte sequence.
pub uninterp spec fn blake3_of(data: Seq<u8>) -> Seq<u8>;

/// Relies on `blake3::hash`: the digest is a pure function of the input
/// bytes and is always 32 bytes long.
#[verifier::external_body]
fn blake3_digest(data: &[u8]) -> (r: [u8; 32])
    ensures
        r@ == blake3_of(data@),
{
    *blake3::hash(data).as_bytes()
}

/// The content hash of an encrypted payload (header and ciphertext),
/// for user-facing verification before decryption.  No secret material
/// is involved.
pub fn hash_encrypted(data: &[u8]) -> (r: [u8; 32])
    ensures
        r@ == blake3_of(data@),
{
    blake3_digest(data)
}

/// Whether an encrypted payload still has the digest it had when it was
/// recorded: true exactly when the BLAKE3 digest of `data` equals
/// `expected`.
pub fn verify_hash(data: &[u8], expected: &[u8]) -> (r: bool)
    ensures
        r == (blake3_of(data@) == expected@),
{
    let digest = blake3_digest(data);
    if expected.len() != 32 {
        proof {
            assert(digest@.len() == 32);
        }
        return false;
    }
    let mut i: usize = 0;
    while i < 32
        invariant
            i <= 32,
            digest@ == blake3_of(data@),
            expected@.len() == 32,
            forall|j: int| 0 <= j < i ==> digest@[j] == expected@[j],
        decreases 32 - i,
    {
        if digest[i] != expected[i] {
            proof {
                assert(digest@ != expected@);
            }
            return false;
        }
        i += 1;
    }
    proof {
        assert(digest@ =~= expected@);
    }
    true
}

} // verus!
