use vstd::prelude::*;

use crate::algorithm::KEY_LEN;

verus! {

/// Owned key material: a 32-byte symmetric key.  The buffer is wiped to
/// zero by `zeroize`, which also runs when the value is dropped, so a
/// key does not outlive its use; early-return error paths are covered
/// because the drop runs on every path out of the owner's scope.  The
/// type is deliberately neither `Clone` nor `Debug`: key bytes are only
/// moved, or exposed as a borrowed view for the duration of a cipher
/// call.
pub struct Secret {
    bytes: [u8; 32],
}

impl View for Secret {
    type V = Seq<u8>;

    closed spec fn view(&self) -> Seq<u8> {
        self.bytes@
    }
}

impl Secret {
    /// Take ownership of raw key bytes.
    pub fn new(bytes: [u8; 32]) -> (s: Secret)
        ensures
            s@ == bytes@,
    {
        Secret { bytes }
    }

    /// A read-only view of the key bytes, scoped to the call.
    pub fn expose(&self) -> (r: &[u8])
        ensures
            r@ == self@,
    {
        self.bytes.as_slice()
    }

    pub fn len(&self) -> (n: usize)
        ensures
            n == self@.len(),
            n == KEY_LEN,
    {
        32
    }

    /// Overwrite every byte of the buffer with zero.
    pub fn zeroize(&mut self)
        ensures
            final(self)@.len() == old(self)@.len(),
            forall|i: int| 0 <= i < final(self)@.len() ==> final(self)@[i] == 0u8,
        opens_invariants none
        no_unwind
    {
        let mut i: usize = 0;
        while i < 32
            invariant
                i <= 32,
                forall|j: int| 0 <= j < i ==> self.bytes@[j] == 0u8,
            decreases 32 - i,
        {
            self.bytes[i] = 0u8;
            i += 1;
        }
    }
}

impl Drop for Secret {
    /// Wipe the key bytes when the owner goes out of scope.
    fn drop(&mut self)
        opens_invariants none
        no_unwind
    {
        self.zeroize();
    }
}

} // verus!
