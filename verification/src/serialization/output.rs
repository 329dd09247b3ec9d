//! The product of serializing one operation.

use vstd::prelude::*;

use crate::digest::{digest_of_bytes, get_digest};
use crate::pb::{Op, OpMetadata, OpMetadataView, OpView};
use crate::wire::Message;

verus! {

/// One serialized vertex: its encoded bytes, the digest of those bytes and
/// its metadata.
#[derive(Debug, Clone)]
pub struct Node {
    pub bytes: Vec<u8>,
    pub digest: String,
    pub metadata: OpMetadata,
}

/// What a [`Node`] holds.
pub ghost struct NodeView {
    pub bytes: Seq<u8>,
    pub digest: Seq<char>,
    pub metadata: OpMetadataView,
}

impl NodeView {
    /// The node of a record: the record's encoding, the digest of that
    /// encoding, and the metadata as given.
    pub open spec fn of(message: OpView, metadata: OpMetadataView) -> NodeView {
        NodeView {
            bytes: message.wire(),
            digest: digest_of_bytes(message.wire()),
            metadata: metadata,
        }
    }
}

impl View for Node {
    type V = NodeView;

    open spec fn view(&self) -> NodeView {
        NodeView { bytes: self.bytes@, digest: self.digest@, metadata: self.metadata@ }
    }
}

impl Node {
    /// Encodes `message` and addresses the result by its content.
    pub fn new(message: Op, metadata: OpMetadata) -> (node: Node)
        ensures
            node@ == NodeView::of(message@, metadata@),
    {
        let mut bytes: Vec<u8> = Vec::new();
        message.encode(&mut bytes);
        assert(bytes@ =~= message@.wire());
        let digest = get_digest(bytes.as_slice());
        Node { bytes, digest, metadata }
    }

    /// The digest of a vertex with the given bytes.
    pub fn get_digest(bytes: &[u8]) -> (digest: String)
        ensures
            digest@ == digest_of_bytes(bytes@),
    {
        get_digest(bytes)
    }
}

} // verus!
