//! The end of a graph: the output that a definition is made for.

use vstd::prelude::*;

use crate::ops::fs::mkfile::copy_bytes;
use crate::ordering::{text_less, text_lt};
use crate::pb::definition::{blobs, metadata_views};
use crate::pb::{Definition, DefinitionView, Input, Op, OpMetadata, OpMetadataView, OpView};
use crate::serialization::context::Context;
use crate::serialization::model::{nodes_of, ContextView};
use crate::serialization::{EdgeView, Node, NodeView};
use crate::utils::{register_edge, OperationOutput};
use crate::wire::{text_flags, text_pairs, Message};

verus! {

/// The node of a terminal that takes `edge`: the output is registered, and
/// the node has the one input and nothing else.
pub open spec fn terminal_node(cx: ContextView, edge: EdgeView) -> Option<(ContextView, NodeView)> {
    match register_edge(cx, edge) {
        Some((after, input)) => Some(
            (after, NodeView::of(OpView { inputs: seq![input], op: None }, OpMetadataView::empty())),
        ),
        None => None,
    }
}

/// The position of the entry with the given digest, if there is one.
pub open spec fn entry_index(entries: Seq<(Seq<char>, OpMetadataView)>, digest: Seq<char>) -> Option<
    int,
>
    decreases entries.len(),
{
    if entries.len() == 0 {
        None
    } else {
        match entry_index(entries.drop_last(), digest) {
            Some(i) => Some(i),
            None => if entries.last().0 == digest {
                Some(entries.len() - 1)
            } else {
                None
            },
        }
    }
}

/// The entries with one more entry in its place by the order of digests:
/// behind the last entry whose digest comes before its own.
pub open spec fn place(
    entries: Seq<(Seq<char>, OpMetadataView)>,
    entry: (Seq<char>, OpMetadataView),
) -> Seq<(Seq<char>, OpMetadataView)>
    decreases entries.len(),
{
    if entries.len() == 0 {
        seq![entry]
    } else if text_lt(entries.last().0, entry.0) {
        entries.push(entry)
    } else {
        place(entries.drop_last(), entry).push(entries.last())
    }
}

/// The metadata map of a list of nodes, keyed by digest: each digest once,
/// with the metadata of its last node, the entries in the order of their
/// digests.
pub open spec fn metadata_map(nodes: Seq<NodeView>) -> Seq<(Seq<char>, OpMetadataView)>
    decreases nodes.len(),
{
    if nodes.len() == 0 {
        Seq::empty()
    } else {
        let before = metadata_map(nodes.drop_last());
        let entry = (nodes.last().digest, nodes.last().metadata);
        match entry_index(before, nodes.last().digest) {
            Some(i) => before.update(i, entry),
            None => place(before, entry),
        }
    }
}

/// The definition made of a list of nodes: their bytes in order, and their
/// metadata by digest.
pub open spec fn assemble(nodes: Seq<NodeView>) -> DefinitionView {
    DefinitionView {
        def: nodes.map_values(|n: NodeView| n.bytes),
        metadata: metadata_map(nodes),
    }
}

/// The definition of the graph that ends in `edge`: the vertices that the
/// output depends on, each once, in the order of their registration in an
/// empty context, and the terminal's own node last.
pub open spec fn definition_of(edge: EdgeView) -> Option<DefinitionView> {
    match terminal_node(Seq::empty(), edge) {
        Some((cx, node)) => Some(assemble(nodes_of(cx).push(node))),
        None => None,
    }
}

/// A copy of a metadata record.
pub fn copy_metadata(metadata: &OpMetadata) -> (out: OpMetadata)
    ensures
        out@ == metadata@,
{
    let mut description: Vec<(String, String)> = Vec::new();
    let mut i: usize = 0;
    while i < metadata.description.len()
        invariant
            i <= metadata.description@.len(),
            description@.len() == i,
            forall|k: int|
                0 <= k < i ==> (#[trigger] description@[k]).0@ == metadata.description@[k].0@
                    && description@[k].1@ == metadata.description@[k].1@,
        decreases metadata.description@.len() - i,
    {
        description.push((metadata.description[i].0.clone(), metadata.description[i].1.clone()));
        i = i + 1;
    }
    assert(text_pairs(description@) =~= text_pairs(metadata.description@));
    let mut caps: Vec<(String, bool)> = Vec::new();
    let mut j: usize = 0;
    while j < metadata.caps.len()
        invariant
            j <= metadata.caps@.len(),
            caps@.len() == j,
            forall|k: int|
                0 <= k < j ==> (#[trigger] caps@[k]).0@ == metadata.caps@[k].0@ && caps@[k].1
                    == metadata.caps@[k].1,
        decreases metadata.caps@.len() - j,
    {
        caps.push((metadata.caps[j].0.clone(), metadata.caps[j].1));
        j = j + 1;
    }
    assert(text_flags(caps@) =~= text_flags(metadata.caps@));
    OpMetadata { ignore_cache: metadata.ignore_cache, description, caps }
}

/// The views of a list of nodes.
pub open spec fn node_views(nodes: Seq<Node>) -> Seq<NodeView> {
    nodes.map_values(|n: Node| n@)
}

/// Finds the entry with the given digest.
fn find_entry(entries: &Vec<(String, OpMetadata)>, digest: &String) -> (found: Option<usize>)
    ensures
        match found {
            Some(i) => entry_index(metadata_views(entries@), digest@) == Some(i as int) && i
                < entries@.len(),
            None => entry_index(metadata_views(entries@), digest@) is None,
        },
{
    let ghost all = metadata_views(entries@);
    let mut i: usize = 0;
    while i < entries.len()
        invariant
            i <= entries@.len(),
            all == metadata_views(entries@),
            entry_index(all.subrange(0, i as int), digest@) is None,
        decreases entries@.len() - i,
    {
        assert(all.subrange(0, i + 1).drop_last() =~= all.subrange(0, i as int));
        if entries[i].0 == *digest {
            proof {
                lemma_entry_index_extends(all, i + 1, digest@);
            }
            return Some(i);
        }
        i = i + 1;
    }
    assert(all.subrange(0, i as int) =~= all);
    None
}

/// Where the entry with the given digest belongs by the order of digests.
fn find_place(entries: &Vec<(String, OpMetadata)>, digest: &String) -> (at: usize)
    ensures
        at <= entries@.len(),
        forall|metadata: OpMetadataView|
            #[trigger] place(metadata_views(entries@), (digest@, metadata)) == metadata_views(
                entries@,
            ).insert(at as int, (digest@, metadata)),
{
    let ghost all = metadata_views(entries@);
    let mut i: usize = entries.len();
    assert(all.take(i as int) =~= all);
    assert forall|metadata: OpMetadataView|
        #[trigger] place(all, (digest@, metadata)) == place(
            all.take(i as int),
            (digest@, metadata),
        ) + all.skip(i as int) by {
        assert(all.skip(i as int) =~= Seq::empty());
        assert(place(all, (digest@, metadata)) + Seq::empty() =~= place(
            all,
            (digest@, metadata),
        ));
    }
    while i > 0
        invariant
            i <= entries@.len(),
            all == metadata_views(entries@),
            forall|metadata: OpMetadataView|
                #[trigger] place(all, (digest@, metadata)) == place(
                    all.take(i as int),
                    (digest@, metadata),
                ) + all.skip(i as int),
        decreases i,
    {
        let before = text_less(entries[i - 1].0.as_str(), digest.as_str());
        proof {
            assert(all.take(i as int).last() == all[i - 1]);
            assert(all.take(i as int).drop_last() =~= all.take(i - 1));
        }
        if before {
            assert forall|metadata: OpMetadataView|
                #[trigger] place(all, (digest@, metadata)) == all.insert(
                    i as int,
                    (digest@, metadata),
                ) by {
                assert(all.take(i as int).push((digest@, metadata)) + all.skip(i as int)
                    =~= all.insert(i as int, (digest@, metadata)));
            }
            return i;
        }
        assert forall|metadata: OpMetadataView|
            #[trigger] place(all, (digest@, metadata)) == place(
                all.take(i - 1),
                (digest@, metadata),
            ) + all.skip(i - 1) by {
            let inner = place(all.take(i - 1), (digest@, metadata));
            assert(inner.push(all[i - 1]) + all.skip(i as int) =~= inner + all.skip(i - 1));
        }
        i = i - 1;
    }
    assert forall|metadata: OpMetadataView|
        #[trigger] place(all, (digest@, metadata)) == all.insert(0, (digest@, metadata)) by {
        assert(all.take(0) =~= Seq::empty());
        assert(seq![(digest@, metadata)] + all.skip(0) =~= all.insert(0, (digest@, metadata)));
    }
    0
}

/// An entry found in the first entries is the first one of all.
pub proof fn lemma_entry_index_extends(
    entries: Seq<(Seq<char>, OpMetadataView)>,
    len: int,
    digest: Seq<char>,
)
    requires
        0 <= len <= entries.len(),
        entry_index(entries.subrange(0, len), digest) is Some,
    ensures
        entry_index(entries, digest) == entry_index(entries.subrange(0, len), digest),
    decreases entries.len() - len,
{
    if len < entries.len() {
        assert(entries.subrange(0, len + 1).drop_last() =~= entries.subrange(0, len));
        lemma_entry_index_extends(entries, len + 1, digest);
    } else {
        assert(entries.subrange(0, len) =~= entries);
    }
}

/// Makes the definition of a list of nodes.
pub fn assemble_definition(nodes: &Vec<Node>) -> (definition: Definition)
    ensures
        definition@ == assemble(node_views(nodes@)),
{
    let mut def: Vec<Vec<u8>> = Vec::new();
    let mut metadata: Vec<(String, OpMetadata)> = Vec::new();
    let ghost all = node_views(nodes@);
    let mut i: usize = 0;
    assert(all.take(0) =~= Seq::empty());
    assert(metadata_views(metadata@) =~= Seq::empty());
    while i < nodes.len()
        invariant
            i <= nodes@.len(),
            all == node_views(nodes@),
            def@.len() == i,
            forall|k: int| 0 <= k < i ==> (#[trigger] def@[k])@ == all[k].bytes,
            metadata_views(metadata@) == metadata_map(all.take(i as int)),
        decreases nodes@.len() - i,
    {
        let node = &nodes[i];
        proof {
            assert(all.take(i + 1).drop_last() =~= all.take(i as int));
            assert(all.take(i + 1).last() == node@);
        }
        def.push(copy_bytes(&node.bytes));
        let entry = (node.digest.clone(), copy_metadata(&node.metadata));
        let ghost before = metadata_views(metadata@);
        match find_entry(&metadata, &node.digest) {
            Some(at) => {
                metadata.set(at, entry);
                assert(metadata_views(metadata@) =~= before.update(
                    at as int,
                    (node@.digest, node@.metadata),
                ));
            },
            None => {
                let at = find_place(&metadata, &node.digest);
                metadata.insert(at, entry);
                assert(metadata_views(metadata@) =~= before.insert(
                    at as int,
                    (node@.digest, node@.metadata),
                ));
                assert(place(before, (node@.digest, node@.metadata)) == before.insert(
                    at as int,
                    (node@.digest, node@.metadata),
                ));
            },
        }
        i = i + 1;
    }
    assert(all.take(i as int) =~= all);
    assert(blobs(def@) =~= all.map_values(|n: NodeView| n.bytes));
    Definition { def, metadata }
}

/// The last operation of a graph. It names the output that the definition is
/// made for.
#[derive(Debug)]
pub struct Terminal<'a> {
    input: OperationOutput<'a>,
}

impl<'a> View for Terminal<'a> {
    type V = EdgeView;

    closed spec fn view(&self) -> EdgeView {
        self.input@
    }
}

impl<'a> Terminal<'a> {
    /// The terminal that takes `input`.
    pub fn with(input: OperationOutput<'a>) -> (terminal: Terminal<'a>)
        ensures
            terminal@ == input@,
    {
        Terminal { input }
    }

    /// Serializes the terminal: registers the operation of its output and
    /// makes the node that has this output as its one input.
    pub fn serialize(&self, cx: &mut Context) -> (result: Result<Node, ()>)
        ensures
            match terminal_node(old(cx)@, self@) {
                Some((after, node)) => result matches Ok(n) && n@ == node && final(cx)@ == after,
                None => result is Err,
            },
    {
        let input = match self.input.register(cx) {
            Ok(input) => input,
            Err(e) => {
                return Err(e);
            },
        };
        let mut inputs: Vec<Input> = Vec::new();
        inputs.push(input);
        let head = Op { inputs, op: None };
        assert(head@.inputs =~= seq![input@]);
        Ok(Node::new(head, OpMetadata::new()))
    }

    /// The definition of the graph that ends here. Fails when an operation
    /// of the graph has no encoding.
    pub fn into_definition(self) -> (result: Result<Definition, ()>)
        ensures
            match definition_of(self@) {
                Some(definition) => result matches Ok(d) && d@ == definition,
                None => result is Err,
            },
    {
        let mut cx = Context::new();
        let last = match self.serialize(&mut cx) {
            Ok(node) => node,
            Err(e) => {
                return Err(e);
            },
        };
        let ghost registered = cx@;
        let mut nodes = cx.into_registered_nodes();
        nodes.push(last);
        assert(node_views(nodes@) =~= nodes_of(registered).push(last@));
        Ok(assemble_definition(&nodes))
    }

    /// Appends the encoded definition of the graph to `writer` in one piece.
    /// On failure the writer is left as it was.
    pub fn write_definition(self, writer: &mut Vec<u8>) -> (result: Result<(), ()>)
        ensures
            match definition_of(self@) {
                Some(definition) => result is Ok && final(writer)@ == old(writer)@
                    + definition.wire(),
                None => result is Err && final(writer)@ == old(writer)@,
            },
    {
        match self.into_definition() {
            Ok(definition) => {
                definition.encode(writer);
                Ok(())
            },
            Err(e) => Err(e),
        }
    }
}

} // verus!
