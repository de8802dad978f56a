//! Thirty-two byte identifiers.
//!
//! Every entity the tournament refers to (operators, battlegrounds,
//! collectibles, pot denominations) is named by an opaque 32-byte key. The
//! library only ever compares keys and hashes their bytes.

use vstd::prelude::*;
use vstd::std_specs::cmp::PartialEqSpecImpl;

verus! {

/// An opaque 32-byte identifier.
#[derive(Clone, Copy, Debug, Eq)]
pub struct Pubkey {
    pub bytes: [u8; 32],
}

/// Byte-wise equality of two 32-byte values.
pub fn bytes_equal(a: &[u8; 32], b: &[u8; 32]) -> (same: bool)
    ensures
        same == (*a == *b),
        same == (a@ == b@),
{
    let mut i: usize = 0;
    while i < 32
        invariant
            i <= 32,
            forall|j: int| 0 <= j < i ==> a[j] == b[j],
        decreases 32 - i,
    {
        if a[i] != b[i] {
            assert(a@[i as int] != b@[i as int]);
            return false;
        }
        i += 1;
    }
    assert(*a =~= *b);
    true
}

impl Pubkey {
    /// Whether every byte of the key is zero: the key of nobody.
    pub open spec fn is_zero(self) -> bool {
        forall|i: int| 0 <= i < 32 ==> self.bytes[i] == 0u8
    }

    /// Wraps 32 bytes as a key.
    pub fn new(bytes: [u8; 32]) -> (key: Pubkey)
        ensures
            key.bytes == bytes,
    {
        Pubkey { bytes }
    }

    /// The bytes of the key.
    pub fn to_bytes(&self) -> (bytes: [u8; 32])
        ensures
            bytes == self.bytes,
    {
        self.bytes
    }

    /// Tests whether this is the all-zero key.
    pub fn is_default(&self) -> (zero: bool)
        ensures
            zero == self.is_zero(),
    {
        let nobody = Pubkey::default();
        let same = bytes_equal(&self.bytes, &nobody.bytes);
        proof {
            if self.is_zero() {
                lemma_zero_key_unique(*self, nobody);
            }
        }
        same
    }
}

/// Two all-zero keys are the same key.
pub proof fn lemma_zero_key_unique(a: Pubkey, b: Pubkey)
    requires
        a.is_zero(),
        b.is_zero(),
    ensures
        a == b,
{
    assert(a.bytes =~= b.bytes);
}

impl Default for Pubkey {
    fn default() -> (key: Pubkey)
        ensures
            key.is_zero(),
    {
        Pubkey { bytes: [0u8; 32] }
    }
}

impl PartialEq for Pubkey {
    fn eq(&self, other: &Pubkey) -> (same: bool) {
        bytes_equal(&self.bytes, &other.bytes)
    }
}

impl PartialEqSpecImpl for Pubkey {
    open spec fn obeys_eq_spec() -> bool {
        true
    }

    open spec fn eq_spec(&self, other: &Pubkey) -> bool {
        *self == *other
    }
}

} // verus!
