//! The definition: the encoded vertices of a graph and their metadata.

use vstd::prelude::*;

use crate::pb::op::{OpMetadata, OpMetadataView};
use crate::wire::{len_field, len_items, put_len, put_message, put_string, string_field, Message};

verus! {

/// A complete graph: the bytes of every vertex, the requested one last, and
/// the metadata of the vertices by digest.
#[derive(Debug, Clone, PartialEq, Eq)]
pub struct Definition {
    pub def: Vec<Vec<u8>>,
    pub metadata: Vec<(String, OpMetadata)>,
}

/// What a [`Definition`] holds.
pub ghost struct DefinitionView {
    pub def: Seq<Seq<u8>>,
    pub metadata: Seq<(Seq<char>, OpMetadataView)>,
}

/// The byte views of a list of byte vectors.
pub open spec fn blobs(items: Seq<Vec<u8>>) -> Seq<Seq<u8>> {
    items.map_values(|b: Vec<u8>| b@)
}

/// The views of a list of metadata entries.
pub open spec fn metadata_views(items: Seq<(String, OpMetadata)>) -> Seq<
    (Seq<char>, OpMetadataView),
> {
    items.map_values(|e: (String, OpMetadata)| (e.0@, e.1@))
}

/// One entry of the metadata map: the digest as field 1 and the metadata as
/// field 2, the metadata left out when every field of it has its default.
pub open spec fn metadata_entry(tag: u32, digest: Seq<char>, metadata: OpMetadataView) -> Seq<u8> {
    len_field(
        tag,
        string_field(1, digest) + if metadata.is_default() {
            Seq::empty()
        } else {
            len_field(2, metadata.wire())
        },
    )
}

/// The entries of the metadata map, in the order given.
pub open spec fn metadata_entries(tag: u32, entries: Seq<(Seq<char>, OpMetadataView)>) -> Seq<u8>
    decreases entries.len(),
{
    if entries.len() == 0 {
        Seq::empty()
    } else {
        metadata_entries(tag, entries.drop_last()) + metadata_entry(
            tag,
            entries.last().0,
            entries.last().1,
        )
    }
}

impl DefinitionView {
    /// The encoded fields.
    pub open spec fn wire(&self) -> Seq<u8> {
        len_items(1, self.def) + metadata_entries(2, self.metadata)
    }
}

impl View for Definition {
    type V = DefinitionView;

    open spec fn view(&self) -> DefinitionView {
        DefinitionView { def: blobs(self.def@), metadata: metadata_views(self.metadata@) }
    }
}

impl Message for Definition {
    open spec fn wire(&self) -> Seq<u8> {
        self@.wire()
    }

    fn encode(&self, buf: &mut Vec<u8>) {
        let mut i: usize = 0;
        while i < self.def.len()
            invariant
                i <= self.def@.len(),
                buf@ == old(buf)@ + len_items(1, blobs(self.def@.subrange(0, i as int))),
            decreases self.def@.len() - i,
        {
            put_len(buf, 1, self.def[i].as_slice());
            proof {
                let next = blobs(self.def@.subrange(0, i + 1));
                assert(next.drop_last() =~= blobs(self.def@.subrange(0, i as int)));
                assert(next.last() == self.def@[i as int]@);
            }
            i = i + 1;
        }
        assert(self.def@.subrange(0, i as int) =~= self.def@);
        let ghost start = buf@;
        let mut j: usize = 0;
        while j < self.metadata.len()
            invariant
                j <= self.metadata@.len(),
                buf@ == start + metadata_entries(
                    2,
                    metadata_views(self.metadata@.subrange(0, j as int)),
                ),
            decreases self.metadata@.len() - j,
        {
            let mut body: Vec<u8> = Vec::new();
            put_string(&mut body, 1, self.metadata[j].0.as_str());
            if !self.metadata[j].1.is_default() {
                put_message(&mut body, 2, &self.metadata[j].1);
            }
            put_len(buf, 2, body.as_slice());
            proof {
                let next = metadata_views(self.metadata@.subrange(0, j + 1));
                assert(next.drop_last() =~= metadata_views(self.metadata@.subrange(0, j as int)));
                assert(next.last() == (self.metadata@[j as int].0@, self.metadata@[j as int].1@));
            }
            j = j + 1;
        }
        assert(self.metadata@.subrange(0, j as int) =~= self.metadata@);
        assert(buf@ =~= old(buf)@ + self@.wire());
    }
}

impl Definition {
    /// The definition as one protocol-buffer message.
    pub fn to_bytes(&self) -> (out: Vec<u8>)
        ensures
            out@ == self@.wire(),
    {
        let mut out: Vec<u8> = Vec::new();
        self.encode(&mut out);
        assert(out@ =~= self@.wire());
        out
    }
}

} // verus!
