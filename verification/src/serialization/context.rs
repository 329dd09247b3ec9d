//! The serialization context: every vertex once, in the order in which the
//! vertices were first registered.

use vstd::prelude::*;

use crate::serialization::model::{index_of, insert, registered, ContextView};
use crate::serialization::output::{Node, NodeView};
use crate::utils::OperationRef;

verus! {

struct Entry {
    id: u64,
    node: Node,
}

/// The registry of serialized vertices of one definition.
pub struct Context {
    entries: Vec<Entry>,
}

impl View for Context {
    type V = ContextView;

    closed spec fn view(&self) -> ContextView {
        self.entries@.map_values(|e: Entry| (e.id, e.node@))
    }
}

impl Default for Context {
    fn default() -> (cx: Context)
        ensures
            cx@ == Seq::<(u64, NodeView)>::empty(),
    {
        Context::new()
    }
}

impl Context {
    /// An empty context.
    pub fn new() -> (cx: Context)
        ensures
            cx@ == Seq::<(u64, NodeView)>::empty(),
    {
        let cx = Context { entries: Vec::new() };
        assert(cx@ =~= Seq::empty());
        cx
    }

    /// The position of the vertex registered under `id`.
    fn position(&self, id: u64) -> (found: Option<usize>)
        ensures
            match found {
                Some(i) => index_of(self@, id) == Some(i as int) && i < self.entries@.len()
                    && self.entries@[i as int].id == id,
                None => index_of(self@, id) is None,
            },
    {
        let mut i: usize = 0;
        while i < self.entries.len()
            invariant
                i <= self.entries@.len(),
                index_of(self@.subrange(0, i as int), id) is None,
            decreases self.entries@.len() - i,
        {
            assert(self@.subrange(0, i + 1).drop_last() =~= self@.subrange(0, i as int));
            if self.entries[i].id == id {
                proof {
                    lemma_index_of_extends(self@, i + 1, id);
                }
                return Some(i);
            }
            i = i + 1;
        }
        assert(self@.subrange(0, i as int) =~= self@);
        None
    }

    /// Stores `node` under `id`: in the place of the vertex that had this
    /// identity, or else at the end.
    fn store(&mut self, id: u64, node: Node)
        ensures
            final(self)@ == insert(old(self)@, id, node@),
    {
        match self.position(id) {
            Some(i) => {
                self.entries.set(i, Entry { id, node });
                assert(self@ =~= old(self)@.update(i as int, (id, node@)));
            },
            None => {
                self.entries.push(Entry { id, node });
                assert(self@ =~= old(self)@.push((id, node@)));
            },
        }
    }

    /// Registers the operation and gives the digest of its vertex. An
    /// operation whose identity is registered is not serialized again.
    pub fn register(&mut self, op: OperationRef<'_>) -> (result: Result<String, ()>)
        ensures
            registered(old(self)@, op.operation(), final(self)@, result),
        decreases op.operation(), 2nat,
    {
        let id = op.id();
        match self.position(id) {
            Some(i) => {
                let digest = self.entries[i].node.digest.clone();
                assert(digest@ == self@[i as int].1.digest);
                Ok(digest)
            },
            None => {
                let node = match op.serialize(self) {
                    Ok(node) => node,
                    Err(e) => {
                        return Err(e);
                    },
                };
                let digest = node.digest.clone();
                self.store(id, node);
                Ok(digest)
            },
        }
    }

    /// The registered vertices, in the order of their registration.
    pub fn registered_nodes_iter(&self) -> (nodes: Vec<&Node>)
        ensures
            nodes@.len() == self@.len(),
            forall|i: int| 0 <= i < nodes@.len() ==> (#[trigger] nodes@[i])@ == self@[i].1,
    {
        let mut nodes: Vec<&Node> = Vec::new();
        let mut i: usize = 0;
        while i < self.entries.len()
            invariant
                i <= self.entries@.len(),
                nodes@.len() == i,
                forall|j: int| 0 <= j < i ==> (#[trigger] nodes@[j])@ == self@[j].1,
            decreases self.entries@.len() - i,
        {
            nodes.push(&self.entries[i].node);
            i = i + 1;
        }
        nodes
    }

    /// Gives up the context for its vertices, in the order of their
    /// registration.
    pub fn into_registered_nodes(self) -> (nodes: Vec<Node>)
        ensures
            nodes@.len() == self@.len(),
            forall|i: int| 0 <= i < nodes@.len() ==> (#[trigger] nodes@[i])@ == self@[i].1,
    {
        let mut entries = self.entries;
        let mut reversed: Vec<Node> = Vec::new();
        let ghost all = entries@;
        while entries.len() > 0
            invariant
                entries@.len() + reversed@.len() == all.len(),
                entries@ == all.subrange(0, entries@.len() as int),
                forall|j: int|
                    0 <= j < reversed@.len() ==> (#[trigger] reversed@[j]) == all[all.len() - 1
                        - j].node,
            decreases entries@.len(),
        {
            let entry = entries.pop().unwrap();
            reversed.push(entry.node);
        }
        let mut nodes: Vec<Node> = Vec::new();
        let ghost back = reversed@;
        while reversed.len() > 0
            invariant
                reversed@.len() + nodes@.len() == back.len(),
                reversed@ == back.subrange(0, reversed@.len() as int),
                forall|j: int|
                    0 <= j < nodes@.len() ==> (#[trigger] nodes@[j]) == back[back.len() - 1 - j],
            decreases reversed@.len(),
        {
            let node = reversed.pop().unwrap();
            nodes.push(node);
        }
        nodes
    }
}

/// A vertex found in a prefix of the context is the first one in the whole.
pub proof fn lemma_index_of_extends(cx: ContextView, len: int, id: u64)
    requires
        0 <= len <= cx.len(),
        index_of(cx.subrange(0, len), id) is Some,
    ensures
        index_of(cx, id) == index_of(cx.subrange(0, len), id),
    decreases cx.len() - len,
{
    if len < cx.len() {
        assert(cx.subrange(0, len + 1).drop_last() =~= cx.subrange(0, len));
        lemma_index_of_extends(cx, len + 1, id);
    } else {
        assert(cx.subrange(0, len) =~= cx);
    }
}

} // verus!
