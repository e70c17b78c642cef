//! Content hashes of blocks.

use vstd::prelude::*;

verus! {

/// Number of bytes in a block hash.
pub const HASH_LEN: usize = 32;

/// The content hash of a block: 256 bits, held as 32 bytes and compared byte by
/// byte.
#[derive(Clone, Copy, Debug)]
pub struct H256 {
    bytes: [u8; HASH_LEN],
}

impl View for H256 {
    type V = Seq<u8>;

    /// The bytes of the hash, first byte first.
    closed spec fn view(&self) -> Seq<u8> {
        self.bytes@
    }
}

impl H256 {
    /// A hash made of the given bytes.
    pub fn new(bytes: [u8; HASH_LEN]) -> (hash: H256)
        ensures
            hash@ == bytes@,
    {
        H256 { bytes }
    }

    /// The bytes of the hash.
    pub fn to_bytes(&self) -> (bytes: [u8; HASH_LEN])
        ensures
            bytes@ == self@,
    {
        self.bytes
    }

    /// Every hash has exactly `HASH_LEN` bytes.
    pub proof fn lemma_len(self)
        ensures
            self@.len() == HASH_LEN,
    {
    }

    /// Two hashes with the same bytes are the same hash.
    pub proof fn lemma_view_injective(self, other: H256)
        requires
            self@ == other@,
        ensures
            self == other,
    {
        assert(self.bytes =~= other.bytes);
    }
}

impl PartialEq for H256 {
    /// Byte-exact equality.
    fn eq(&self, other: &H256) -> (equal: bool) {
        let mut i: usize = 0;
        while i < HASH_LEN
            invariant
                i <= HASH_LEN,
                forall|k: int| 0 <= k < i ==> self.bytes@[k] == other.bytes@[k],
            decreases HASH_LEN - i,
        {
            if self.bytes[i] != other.bytes[i] {
                return false;
            }
            i += 1;
        }
        assert(self.bytes@ =~= other.bytes@);
        true
    }
}

impl Eq for H256 {}

impl vstd::std_specs::cmp::PartialEqSpecImpl for H256 {
    open spec fn obeys_eq_spec() -> bool {
        true
    }

    open spec fn eq_spec(&self, other: &H256) -> bool {
        self@ == other@
    }
}

} // verus!
