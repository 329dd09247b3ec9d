//! The mathematical model of a graph and of its serialization.
//!
//! An operation is modelled by what it contributes to the definition: its
//! identity, the outputs it consumes, what it does, and its metadata. The
//! serialization context is modelled as the list of registered vertices in
//! the order of their first registration.

use vstd::prelude::*;

use crate::pb::{InputView, OpBodyView, OpMetadataView, OpView};
use crate::serialization::output::{Node, NodeView};

verus! {

/// The model of an operation.
pub ghost struct OperationView {
    /// The operation's identity.
    pub id: u64,
    /// The outputs that the operation consumes, in the order of its input list.
    pub inputs: Seq<EdgeView>,
    /// What the operation does. The indices inside refer to `inputs`.
    pub body: Option<OpBodyView>,
    /// The operation's metadata.
    pub metadata: OpMetadataView,
    /// Whether the operation has an encoding at all.
    pub encodable: bool,
}

/// The model of a consumed output: the operation that produces it and the
/// index of the output.
pub ghost struct EdgeView {
    pub target: OperationView,
    pub index: i64,
}

/// The model of a serialization context.
pub type ContextView = Seq<(u64, NodeView)>;

/// The position of the first vertex registered under `id`, if there is one.
pub open spec fn index_of(cx: ContextView, id: u64) -> Option<int>
    decreases cx.len(),
{
    if cx.len() == 0 {
        None
    } else {
        match index_of(cx.drop_last(), id) {
            Some(i) => Some(i),
            None => if cx.last().0 == id {
                Some(cx.len() - 1)
            } else {
                None
            },
        }
    }
}

/// The context after a vertex has been stored under `id`: in the place of the
/// vertex that had this identity, or else at the end.
pub open spec fn insert(cx: ContextView, id: u64, node: NodeView) -> ContextView {
    match index_of(cx, id) {
        Some(i) => cx.update(i, (id, node)),
        None => cx.push((id, node)),
    }
}

/// No identity is registered twice.
pub open spec fn distinct_ids(cx: ContextView) -> bool {
    forall|i: int, j: int| 0 <= i < j < cx.len() ==> cx[i].0 != cx[j].0
}

/// The registered vertices, in order of registration.
pub open spec fn nodes_of(cx: ContextView) -> Seq<NodeView> {
    cx.map_values(|e: (u64, NodeView)| e.1)
}

/// Registers the operation: a registered identity yields the digest stored
/// for it and leaves the context as it is; a new one is serialized, which
/// registers what it consumes first, and is then stored. `None` when the
/// operation or one that it depends on has no encoding.
pub open spec fn register(cx: ContextView, op: OperationView) -> Option<(ContextView, Seq<char>)>
    decreases op, 2nat, 0nat,
{
    match index_of(cx, op.id) {
        Some(i) => Some((cx, cx[i].1.digest)),
        None => match serialize(cx, op) {
            Some((registered, node)) => Some((insert(registered, op.id, node), node.digest)),
            None => None,
        },
    }
}

/// Registers the first `count` outputs that the operation consumes, in
/// order. The result holds the context after that and the input edges made
/// of the digests that registration gave.
pub open spec fn register_inputs(cx: ContextView, op: OperationView, count: nat) -> Option<
    (ContextView, Seq<InputView>),
>
    decreases op, 0nat, count,
{
    if count == 0 || count > op.inputs.len() {
        Some((cx, Seq::empty()))
    } else {
        match register_inputs(cx, op, (count - 1) as nat) {
            Some((before, inputs)) => match register(before, op.inputs[count - 1].target) {
                Some((after, digest)) => Some(
                    (
                        after,
                        inputs.push(
                            InputView { digest: digest, index: op.inputs[count - 1].index },
                        ),
                    ),
                ),
                None => None,
            },
            None => None,
        }
    }
}

/// Serializes the operation: registers every output it consumes, in order,
/// and encodes the operation with the digests that this gave.
pub open spec fn serialize(cx: ContextView, op: OperationView) -> Option<(ContextView, NodeView)>
    decreases op, 1nat, 0nat,
{
    match register_inputs(cx, op, op.inputs.len()) {
        Some((registered, inputs)) => if op.encodable {
            Some((registered, NodeView::of(OpView { inputs: inputs, op: op.body }, op.metadata)))
        } else {
            None
        },
        None => None,
    }
}

/// Once the registration of an input fails, so does that of every longer
/// list of inputs.
pub proof fn lemma_register_inputs_fails(cx: ContextView, op: OperationView, failed: nat, count: nat)
    requires
        register_inputs(cx, op, failed) is None,
        failed <= count <= op.inputs.len(),
    ensures
        register_inputs(cx, op, count) is None,
    decreases count,
{
    if failed < count {
        lemma_register_inputs_fails(cx, op, failed, (count - 1) as nat);
    }
}

/// What a call that serializes `op` owes: on an operation with an encoding,
/// the node and the context that [`serialize`] gives; an error otherwise.
pub open spec fn serialized(
    before: ContextView,
    op: OperationView,
    after: ContextView,
    result: Result<Node, ()>,
) -> bool {
    match serialize(before, op) {
        Some((cx, node)) => result matches Ok(n) && n@ == node && after == cx,
        None => result is Err,
    }
}

/// What a call that registers `op` owes: on an operation with an encoding,
/// the digest and the context that [`register`] gives; an error otherwise.
pub open spec fn registered(
    before: ContextView,
    op: OperationView,
    after: ContextView,
    result: Result<String, ()>,
) -> bool {
    match register(before, op) {
        Some((cx, digest)) => result matches Ok(d) && d@ == digest && after == cx,
        None => result is Err,
    }
}

} // verus!
