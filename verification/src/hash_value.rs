//! Content-derived block identifiers.

use vstd::prelude::*;

verus! {

/// A content-derived identifier: the cryptographic hash of a block's fields.
/// The hashing itself is a collaborator's concern; this core only stores and
/// compares identifiers, so the value is a plain array of bytes.
#[derive(Clone, Copy, Debug, PartialEq, Eq, Hash)]
pub struct HashValue {
    pub bytes: [u8; 32],
}

impl HashValue {
    /// The raw bytes of this identifier.
    pub open spec fn spec_bytes(self) -> Seq<u8> {
        self.bytes@
    }

    /// Wraps raw identifier bytes.
    pub fn new(bytes: [u8; 32]) -> (r: Self)
        ensures
            r.spec_bytes() == bytes@,
    {
        HashValue { bytes }
    }

    /// Reads the raw identifier bytes back out.
    pub fn as_bytes(&self) -> (r: &[u8; 32])
        ensures
            r@ == self.spec_bytes(),
    {
        &self.bytes
    }
}

} // verus!
