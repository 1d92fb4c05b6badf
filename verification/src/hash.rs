//! Content hashes: fixed-size BLAKE3 digests.

use vstd::prelude::*;

verus! {

/// The number of bytes in a content hash.
pub const HASH_LEN: usize = 32;

/// The BLAKE3 digest of a byte string, as `blake3::hash` computes it.
pub uninterp spec fn blake3_digest(input: Seq<u8>) -> Seq<u8>;

/// Calls `blake3::hash` and copies the digest out of the `blake3::Hash` it
/// returns. The digest is a function of the input bytes alone, and it is
/// always 32 bytes long.
#[verifier::external_body]
fn blake3_hash(input: &[u8]) -> (digest: [u8; 32])
    ensures
        digest@ == blake3_digest(input@),
{
    *blake3::hash(input).as_bytes()
}

/// A content hash: the digest that identifies a node's content.
#[derive(Clone, Copy, Debug, PartialEq, Eq, Hash)]
pub struct Hash {
    pub bytes: [u8; 32],
}

impl View for Hash {
    type V = Seq<u8>;

    open spec fn view(&self) -> Seq<u8> {
        self.bytes@
    }
}

impl Hash {
    /// Hashes `input`.
    pub fn new(input: &[u8]) -> (hash: Hash)
        ensures
            hash@ == blake3_digest(input@),
    {
        Hash { bytes: blake3_hash(input) }
    }

    /// The hash that holds exactly these bytes.
    pub fn from_bytes(bytes: [u8; 32]) -> (hash: Hash)
        ensures
            hash.bytes == bytes,
    {
        Hash { bytes }
    }

    /// The raw bytes of the hash.
    pub fn as_bytes(&self) -> (bytes: &[u8; 32])
        ensures
            bytes@ == self@,
            bytes@.len() == HASH_LEN,
    {
        &self.bytes
    }
}

} // verus!
