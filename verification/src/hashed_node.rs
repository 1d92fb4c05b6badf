//! Nodes together with the hash of their content.
//!
//! The hash of a node covers its own content and the hashes of its children:
//! it is the BLAKE3 digest of the canonical encoding of the node's content,
//! followed by the number of children and by the hash of each child in child
//! order. Nothing else enters it, so the same content over the same child
//! hashes has the same hash however and whenever the node is built.

use vstd::prelude::*;

use crate::encoding::{all_encode, fields_bytes, ContentWriter, Field};
use crate::error::GraphError;
use crate::hash::blake3_digest;
use crate::node::PkgNode;

verus! {

/// What is hashed for a node with the given content over the given child
/// hashes: the content, the number of children, and the child hashes in
/// order.
pub open spec fn hashed_fields(content: Seq<Field>, children: Seq<crate::hash::Hash>) -> Seq<
    Field,
> {
    content.push(Field::Count(children.len() as u64)) + Seq::new(
        children.len(),
        |k: int| Field::Id(children[k]),
    )
}

/// The bytes of the content hash of a node with the given content over the
/// given child hashes.
pub open spec fn content_hash(content: Seq<Field>, children: Seq<crate::hash::Hash>) -> Seq<u8> {
    blake3_digest(fields_bytes(hashed_fields(content, children)))
}

/// A node and its content hash. The hash is fixed when the node is built and
/// cannot be changed afterwards.
#[derive(Debug, PartialEq, Eq)]
pub struct HashedNode {
    hash: crate::hash::Hash,
    inner: PkgNode,
}

impl HashedNode {
    /// The content hash of the node.
    pub closed spec fn spec_hash(&self) -> crate::hash::Hash {
        self.hash
    }

    /// The content of the node.
    pub closed spec fn spec_inner(&self) -> PkgNode {
        self.inner
    }

    /// Whether the node's hash is the content hash of its content over the
    /// given child hashes.
    pub open spec fn is_hashed_over(&self, children: Seq<crate::hash::Hash>) -> bool {
        self.spec_hash()@ == content_hash(self.spec_inner().content(), children)
    }

    /// Builds a node from its content and the hashes of its children, in
    /// child order, and computes its content hash. Building succeeds exactly
    /// when every JSON value that the content holds can be serialized.
    pub fn new(inner: PkgNode, children: &[crate::hash::Hash]) -> (result: Result<
        HashedNode,
        GraphError,
    >)
        ensures
            result is Ok <==> all_encode(inner.content()),
            match result {
                Ok(node) => node.spec_inner() == inner && node.is_hashed_over(children@),
                Err(error) => error == GraphError::JsonEncoding,
            },
    {
        let mut writer = ContentWriter::new();
        match inner.write_content(&mut writer) {
            Ok(_) => {},
            Err(error) => {
                return Err(error);
            },
        }
        writer.count(children.len() as u64);
        let ghost head = writer.fields();
        let mut i: usize = 0;
        while i < children.len()
            invariant
                i <= children@.len(),
                writer.wf(),
                writer.fields() == head + Seq::new(i as nat, |k: int| Field::Id(children@[k])),
            decreases children@.len() - i,
        {
            writer.id(&children[i]);
            i += 1;
            assert(writer.fields() =~= head + Seq::new(
                i as nat,
                |k: int| Field::Id(children@[k]),
            ));
        }
        assert(writer.fields() =~= hashed_fields(inner.content(), children@));
        let bytes = writer.finish();
        let hash = crate::hash::Hash::new(bytes.as_slice());
        Ok(HashedNode { hash, inner })
    }

    /// The content hash of the node.
    pub fn hash(&self) -> (hash: crate::hash::Hash)
        ensures
            hash == self.spec_hash(),
    {
        self.hash
    }

    /// The content of the node.
    pub fn inner(&self) -> (inner: &PkgNode)
        ensures
            *inner == self.spec_inner(),
    {
        &self.inner
    }

    /// Two nodes with the same content over the same child hashes, in the
    /// same order, have the same content hash, however each was built.
    pub proof fn lemma_equal_content_equal_hash(
        a: HashedNode,
        children_a: Seq<crate::hash::Hash>,
        b: HashedNode,
        children_b: Seq<crate::hash::Hash>,
    )
        requires
            a.is_hashed_over(children_a),
            b.is_hashed_over(children_b),
            a.spec_inner().content() == b.spec_inner().content(),
            children_a == children_b,
        ensures
            a.spec_hash() == b.spec_hash(),
    {
        assert(a.spec_hash()@ == b.spec_hash()@);
        assert(a.spec_hash().bytes =~= b.spec_hash().bytes);
    }
}

} // verus!
