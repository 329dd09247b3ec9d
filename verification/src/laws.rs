//! What holds of every graph and of every serialization.

use vstd::prelude::*;

use crate::serialization::model::{
    distinct_ids, index_of, insert, register, register_inputs, serialize, ContextView,
    OperationView,
};
use crate::ops::exec::command::CommandView;
use crate::ops::exec::mount::{edges, records, MountView};
use crate::ops::fs::path::LayerPathView;
use crate::ops::fs::sequence::{step_edges, step_records, FileStepView, SequenceView};
use crate::ops::terminal::{
    assemble, definition_of, entry_index, metadata_map, place, terminal_node,
};
use crate::ordering::{lemma_lt_irreflexive, lemma_lt_total, lemma_lt_transitive, text_lt};
use crate::pb::{InputView, OpMetadataView, OpView};
use crate::serialization::model::nodes_of;
use crate::serialization::EdgeView;
use crate::serialization::NodeView;

verus! {

/// The identities registered in a context, in order of registration.
pub open spec fn ids_of(cx: ContextView) -> Seq<u64> {
    cx.map_values(|e: (u64, NodeView)| e.0)
}

/// Where `index_of` finds an identity, the identity stands, and nowhere
/// before; where it finds none, the identity stands nowhere.
pub proof fn lemma_index_of(cx: ContextView, id: u64)
    ensures
        match index_of(cx, id) {
            Some(i) => 0 <= i < cx.len() && cx[i].0 == id && forall|j: int|
                0 <= j < i ==> cx[j].0 != id,
            None => forall|j: int| 0 <= j < cx.len() ==> cx[j].0 != id,
        },
    decreases cx.len(),
{
    if cx.len() > 0 {
        lemma_index_of(cx.drop_last(), id);
        assert forall|j: int| 0 <= j < cx.len() - 1 implies cx[j] == cx.drop_last()[j] by {}
    }
}

/// Storing a vertex keeps the identities that were registered, in their
/// places, keeps them distinct, and leaves the vertex registered under its
/// identity.
pub proof fn lemma_insert(cx: ContextView, id: u64, node: NodeView)
    ensures
        cx.len() <= insert(cx, id, node).len(),
        ids_of(insert(cx, id, node)).take(cx.len() as int) == ids_of(cx),
        distinct_ids(cx) ==> distinct_ids(insert(cx, id, node)),
        match index_of(insert(cx, id, node), id) {
            Some(i) => insert(cx, id, node)[i] == (id, node),
            None => false,
        },
        forall|other: u64|
            index_of(cx, other) is Some ==> #[trigger] index_of(insert(cx, id, node), other)
                == index_of(cx, other),
{
    let after = insert(cx, id, node);
    lemma_index_of(cx, id);
    lemma_index_of(after, id);
    assert(ids_of(after).take(cx.len() as int) =~= ids_of(cx));
    match index_of(cx, id) {
        Some(i) => {
            assert(after[i].0 == id);
        },
        None => {
            assert(after[cx.len() as int].0 == id);
        },
    }
    assert forall|other: u64| index_of(cx, other) is Some implies #[trigger] index_of(
        after,
        other,
    ) == index_of(cx, other) by {
        lemma_index_of(cx, other);
        lemma_index_of(after, other);
        let i = index_of(cx, other)->0;
        assert(after[i].0 == other);
    }
}

/// **Each vertex once.** Registration keeps the identities that were
/// registered, in their places; it keeps them distinct; and it leaves the
/// operation registered. So a vertex that is reached along several paths
/// stands in the context, and in the definition made of it, exactly once.
pub proof fn lemma_register_once(cx: ContextView, op: OperationView)
    ensures
        match register(cx, op) {
            Some((after, digest)) => {
                &&& cx.len() <= after.len()
                &&& ids_of(after).take(cx.len() as int) == ids_of(cx)
                &&& (distinct_ids(cx) ==> distinct_ids(after))
                &&& index_of(after, op.id) matches Some(i) && after[i].1.digest == digest
            },
            None => true,
        },
    decreases op, 2nat, 0nat,
{
    lemma_index_of(cx, op.id);
    match index_of(cx, op.id) {
        Some(i) => {
            assert(ids_of(cx).take(cx.len() as int) =~= ids_of(cx));
        },
        None => {
            lemma_serialize_once(cx, op);
            match serialize(cx, op) {
                Some((registered, node)) => {
                    lemma_insert(registered, op.id, node);
                    let after = insert(registered, op.id, node);
                    assert(ids_of(after).take(cx.len() as int) =~= ids_of(after).take(
                        registered.len() as int,
                    ).take(cx.len() as int));
                },
                None => {},
            }
        },
    }
}

/// Serialization keeps the identities that were registered, in their
/// places, and keeps them distinct.
pub proof fn lemma_serialize_once(cx: ContextView, op: OperationView)
    ensures
        match serialize(cx, op) {
            Some((after, node)) => {
                &&& cx.len() <= after.len()
                &&& ids_of(after).take(cx.len() as int) == ids_of(cx)
                &&& (distinct_ids(cx) ==> distinct_ids(after))
            },
            None => true,
        },
    decreases op, 1nat, 0nat,
{
    lemma_register_inputs_once(cx, op, op.inputs.len());
}

/// Registering the inputs of an operation keeps the identities that were
/// registered, in their places, and keeps them distinct; it gives one input
/// edge for each consumed output.
pub proof fn lemma_register_inputs_once(cx: ContextView, op: OperationView, count: nat)
    ensures
        match register_inputs(cx, op, count) {
            Some((after, inputs)) => {
                &&& cx.len() <= after.len()
                &&& ids_of(after).take(cx.len() as int) == ids_of(cx)
                &&& (distinct_ids(cx) ==> distinct_ids(after))
                &&& (count <= op.inputs.len() ==> inputs.len() == count)
            },
            None => true,
        },
    decreases op, 0nat, count,
{
    if count == 0 || count > op.inputs.len() {
        assert(ids_of(cx).take(cx.len() as int) =~= ids_of(cx));
    } else {
        lemma_register_inputs_once(cx, op, (count - 1) as nat);
        match register_inputs(cx, op, (count - 1) as nat) {
            Some((before, inputs)) => {
                lemma_register_once(before, op.inputs[count - 1].target);
                match register(before, op.inputs[count - 1].target) {
                    Some((after, digest)) => {
                        assert(ids_of(after).take(cx.len() as int) =~= ids_of(after).take(
                            before.len() as int,
                        ).take(cx.len() as int));
                    },
                    None => {},
                }
            },
            None => {},
        }
    }
}

/// **Registration is idempotent.** Registering an operation a second time
/// changes nothing and gives the digest that the first registration gave.
pub proof fn lemma_register_again(cx: ContextView, op: OperationView)
    ensures
        match register(cx, op) {
            Some((after, digest)) => register(after, op) == Some((after, digest)),
            None => true,
        },
{
    lemma_register_once(cx, op);
}

/// The mounts that consume an output.
pub open spec fn consuming(mounts: Seq<MountView>) -> Seq<MountView> {
    mounts.filter(|m: MountView| m.source() is Some)
}

/// **Inputs of a command.** A command has one input for each mount that
/// consumes an output, and one record for each mount; scratch, cache and SSH
/// agent mounts consume nothing.
pub proof fn lemma_command_inputs(command: CommandView)
    ensures
        command.operation().inputs.len() == consuming(command.mounts()).len(),
        command.operation().body->0->Exec_0.mounts.len() == command.mounts().len(),
{
    lemma_mount_edges(command.mounts());
}

/// The outputs that a list of mounts consumes are as many as the mounts that
/// consume one, and the records as many as the mounts.
pub proof fn lemma_mount_edges(mounts: Seq<MountView>)
    ensures
        edges(mounts).len() == consuming(mounts).len(),
        records(mounts).len() == mounts.len(),
    decreases mounts.len(),
{
    reveal(Seq::filter);
    if mounts.len() > 0 {
        lemma_mount_edges(mounts.drop_last());
    }
}

/// **Order of mounts.** The record at a place is that of the mount at this
/// place; a mount that consumes an output has as its input the number of
/// consuming mounts before it, any other mount has input `-1`.
pub proof fn lemma_mount_record(mounts: Seq<MountView>, at: int)
    requires
        0 <= at < mounts.len(),
    ensures
        records(mounts).len() == mounts.len(),
        records(mounts)[at] == mounts[at].record(consuming(mounts.take(at)).len() as i64),
        mounts[at].source() is None ==> records(mounts)[at].input == -1,
        records(mounts)[at].dest == mounts[at].dest(),
    decreases mounts.len(),
{
    lemma_mount_edges(mounts);
    if at == mounts.len() - 1 {
        assert(mounts.take(at) =~= mounts.drop_last());
        lemma_mount_edges(mounts.drop_last());
    } else {
        lemma_mount_record(mounts.drop_last(), at);
        assert(mounts.drop_last().take(at) =~= mounts.take(at));
    }
}

/// The output of another operation that a path lies in counts one.
pub open spec fn others_in(path: LayerPathView) -> nat {
    if path is Other {
        1
    } else {
        0
    }
}

/// The number of paths of an action that lie in the output of another
/// operation.
pub open spec fn others_of(step: FileStepView) -> nat {
    match step {
        FileStepView::Copy(op) => others_in(op.source) + others_in(op.destination),
        FileStepView::MakeDir(op) => others_in(op.path),
        FileStepView::MakeFile(op) => others_in(op.path),
    }
}

/// The sum of [`others_of`] over a list of actions.
pub open spec fn others_total(steps: Seq<FileStepView>) -> nat
    decreases steps.len(),
{
    if steps.len() == 0 {
        0
    } else {
        others_total(steps.drop_last()) + others_of(steps.last())
    }
}

/// **Inputs of a sequence.** A sequence has one input for each path of its
/// actions that lies in the output of another operation, repeated outputs
/// included, and one record for each action.
pub proof fn lemma_sequence_inputs(sequence: SequenceView)
    ensures
        sequence.operation().inputs.len() == others_total(sequence.steps),
        sequence.operation().body->0->File_0.actions.len() == sequence.steps.len(),
{
    lemma_step_edges(sequence.steps);
    lemma_step_records(sequence.steps, step_edges(sequence.steps).len() as int);
}

/// The inputs of a list of actions are as many as its paths in outputs of
/// other operations.
pub proof fn lemma_step_edges(steps: Seq<FileStepView>)
    ensures
        step_edges(steps).len() == others_total(steps),
    decreases steps.len(),
{
    if steps.len() > 0 {
        lemma_step_edges(steps.drop_last());
    }
}

/// The records of a list of actions are as many as the actions, and the
/// record at a place is that of the action at this place, with its inputs
/// beginning where those of the actions before it end.
pub proof fn lemma_step_records(steps: Seq<FileStepView>, count: int)
    ensures
        step_records(steps, count).len() == steps.len(),
        forall|at: int|
            0 <= at < steps.len() ==> #[trigger] step_records(steps, count)[at] == steps[at].record(
                count,
                step_edges(steps.take(at)).len() as int,
            ),
    decreases steps.len(),
{
    if steps.len() > 0 {
        lemma_step_records(steps.drop_last(), count);
        assert forall|at: int| 0 <= at < steps.len() implies #[trigger] step_records(
            steps,
            count,
        )[at] == steps[at].record(count, step_edges(steps.take(at)).len() as int) by {
            if at == steps.len() - 1 {
                assert(steps.take(at) =~= steps.drop_last());
            } else {
                assert(steps.drop_last().take(at) =~= steps.take(at));
            }
        }
    }
}

/// **Index arithmetic.** In a sequence that has an encoding, a path in the
/// own output `o` is written as the number of inputs of the sequence plus
/// `o`, and a path in the empty layer as `-1`: for the one path of a
/// directory or file action, and for both paths of a copy.
pub proof fn lemma_own_index(sequence: SequenceView, at: int)
    requires
        0 <= at < sequence.steps.len(),
        sequence.operation().encodable,
    ensures
        sequence.operation().body->0->File_0.actions.len() == sequence.steps.len(),
        sequence.operation().body->0->File_0.actions[at].output == sequence.steps[at].output(),
        ({
            let count = sequence.operation().inputs.len();
            let record = sequence.operation().body->0->File_0.actions[at];
            match sequence.steps[at] {
                FileStepView::Copy(op) => {
                    &&& (op.destination matches LayerPathView::Own(o, _) ==> record.input == count
                        + o)
                    &&& (op.source matches LayerPathView::Own(o, _) ==> record.secondary_input
                        == count + o)
                    &&& (op.destination is Scratch ==> record.input == -1)
                    &&& (op.source is Scratch ==> record.secondary_input == -1)
                },
                FileStepView::MakeDir(op) => {
                    &&& (op.path matches LayerPathView::Own(o, _) ==> record.input == count + o)
                    &&& (op.path is Scratch ==> record.input == -1)
                    &&& record.secondary_input == -1
                },
                FileStepView::MakeFile(op) => {
                    &&& (op.path matches LayerPathView::Own(o, _) ==> record.input == count + o)
                    &&& (op.path is Scratch ==> record.input == -1)
                    &&& record.secondary_input == -1
                },
            }
        }),
{
    lemma_step_records(sequence.steps, step_edges(sequence.steps).len() as int);
}

/// The vertex of an operation by its contents alone: its inputs carry the
/// digests of the vertices of the operations it consumes. No identity and no
/// context enters.
pub open spec fn node_of(op: OperationView) -> NodeView
    decreases op, 1nat, 0nat,
{
    NodeView::of(
        OpView { inputs: inputs_of(op, op.inputs.len()), op: op.body },
        op.metadata,
    )
}

/// The first `count` input edges of an operation by its contents alone.
pub open spec fn inputs_of(op: OperationView, count: nat) -> Seq<InputView>
    decreases op, 0nat, count,
{
    if count == 0 || count > op.inputs.len() {
        Seq::empty()
    } else {
        inputs_of(op, (count - 1) as nat).push(
            InputView {
                digest: node_of(op.inputs[count - 1].target).digest,
                index: op.inputs[count - 1].index,
            },
        )
    }
}

/// Whether `vertex` is `graph` itself or one of the operations that `graph`
/// depends on.
pub open spec fn reaches(graph: OperationView, vertex: OperationView) -> bool
    decreases graph,
{
    vertex == graph || exists|i: int|
        0 <= i < graph.inputs.len() && reaches((#[trigger] graph.inputs[i]).target, vertex)
}

/// An identity stands for one operation: operations of the graph with the
/// same identity are the same.
pub open spec fn unique_ids(graph: OperationView) -> bool {
    forall|v: OperationView, w: OperationView|
        #[trigger] reaches(graph, v) && #[trigger] reaches(graph, w) && v.id == w.id ==> v == w
}

/// What the context holds under the identity of an operation of the graph
/// is the vertex of that operation.
pub open spec fn agrees(cx: ContextView, graph: OperationView) -> bool {
    forall|i: int, v: OperationView|
        0 <= i < cx.len() && #[trigger] reaches(graph, v) && (#[trigger] cx[i]).0 == v.id
            ==> cx[i].1 == node_of(v)
}

/// What an operation of the graph depends on, the graph depends on.
pub proof fn lemma_reaches_trans(graph: OperationView, middle: OperationView, vertex: OperationView)
    requires
        reaches(graph, middle),
        reaches(middle, vertex),
    ensures
        reaches(graph, vertex),
    decreases graph,
{
    if middle != graph {
        let i = choose|i: int|
            0 <= i < graph.inputs.len() && reaches((#[trigger] graph.inputs[i]).target, middle);
        lemma_reaches_trans(graph.inputs[i].target, middle, vertex);
    }
}

/// An operation reaches what it consumes.
pub proof fn lemma_reaches_input(op: OperationView, at: int)
    requires
        0 <= at < op.inputs.len(),
    ensures
        reaches(op, op.inputs[at].target),
{
    assert(reaches(op.inputs[at].target, op.inputs[at].target));
}

/// **Digests follow contents.** In a graph whose identities each stand for
/// one operation, and in a context that agrees with the graph, registering
/// an operation of the graph gives the digest of the operation's vertex by
/// contents, whatever was registered before; and the context still agrees.
pub proof fn lemma_register_content(cx: ContextView, graph: OperationView, op: OperationView)
    requires
        unique_ids(graph),
        agrees(cx, graph),
        reaches(graph, op),
    ensures
        match register(cx, op) {
            Some((after, digest)) => digest == node_of(op).digest && agrees(after, graph),
            None => true,
        },
    decreases op, 2nat, 0nat,
{
    lemma_index_of(cx, op.id);
    match index_of(cx, op.id) {
        Some(i) => {},
        None => {
            lemma_serialize_content(cx, graph, op);
            match serialize(cx, op) {
                Some((registered, node)) => {
                    let after = insert(registered, op.id, node);
                    lemma_index_of(registered, op.id);
                    assert forall|j: int, v: OperationView|
                        0 <= j < after.len() && #[trigger] reaches(graph, v) && (
                        #[trigger] after[j]).0 == v.id implies after[j].1 == node_of(v) by {
                        if after[j] == (op.id, node) {
                            assert(v == op);
                        } else {
                            assert(after[j] == registered[j]);
                        }
                    }
                },
                None => {},
            }
        },
    }
}

/// In a graph whose identities each stand for one operation, and in a
/// context that agrees with the graph, serializing an operation of the graph
/// gives its vertex by contents; and the context still agrees.
pub proof fn lemma_serialize_content(cx: ContextView, graph: OperationView, op: OperationView)
    requires
        unique_ids(graph),
        agrees(cx, graph),
        reaches(graph, op),
    ensures
        match serialize(cx, op) {
            Some((after, node)) => node == node_of(op) && agrees(after, graph),
            None => true,
        },
    decreases op, 1nat, 0nat,
{
    lemma_register_inputs_content(cx, graph, op, op.inputs.len());
}

/// In a graph whose identities each stand for one operation, and in a
/// context that agrees with the graph, registering the inputs of an operation
/// of the graph gives its input edges by contents; and the context still
/// agrees.
pub proof fn lemma_register_inputs_content(
    cx: ContextView,
    graph: OperationView,
    op: OperationView,
    count: nat,
)
    requires
        unique_ids(graph),
        agrees(cx, graph),
        reaches(graph, op),
    ensures
        match register_inputs(cx, op, count) {
            Some((after, inputs)) => inputs == inputs_of(op, count) && agrees(after, graph),
            None => true,
        },
    decreases op, 0nat, count,
{
    if !(count == 0 || count > op.inputs.len()) {
        lemma_register_inputs_content(cx, graph, op, (count - 1) as nat);
        match register_inputs(cx, op, (count - 1) as nat) {
            Some((before, inputs)) => {
                lemma_reaches_input(op, count - 1);
                lemma_reaches_trans(graph, op, op.inputs[count - 1].target);
                lemma_register_content(before, graph, op.inputs[count - 1].target);
            },
            None => {},
        }
    }
}

/// Whether two operations are alike but for the identities in them: the same
/// body and metadata, both with or both without an encoding, and inputs that
/// take the same outputs of operations that are alike.
pub open spec fn alike(a: OperationView, b: OperationView) -> bool
    decreases a,
{
    &&& a.body == b.body
    &&& a.metadata == b.metadata
    &&& a.encodable == b.encodable
    &&& a.inputs.len() == b.inputs.len()
    &&& forall|i: int|
        0 <= i < a.inputs.len() ==> (#[trigger] a.inputs[i]).index == b.inputs[i].index && alike(
            a.inputs[i].target,
            b.inputs[i].target,
        )
}

/// **Determinism.** Operations that are alike but for their identities have
/// the same vertex: the same bytes and the same digest. So two constructions
/// of a graph give the same digests, whatever identities were handed out.
pub proof fn lemma_alike_nodes(a: OperationView, b: OperationView)
    requires
        alike(a, b),
    ensures
        node_of(a) == node_of(b),
    decreases a, 1nat, 0nat,
{
    lemma_alike_inputs(a, b, a.inputs.len());
}

/// Operations that are alike but for their identities have the same input
/// edges.
pub proof fn lemma_alike_inputs(a: OperationView, b: OperationView, count: nat)
    requires
        alike(a, b),
    ensures
        inputs_of(a, count) == inputs_of(b, count),
    decreases a, 0nat, count,
{
    if !(count == 0 || count > a.inputs.len()) {
        lemma_alike_inputs(a, b, (count - 1) as nat);
        assert(alike(a.inputs[count - 1].target, b.inputs[count - 1].target));
        lemma_alike_nodes(a.inputs[count - 1].target, b.inputs[count - 1].target);
    }
}

/// **The definition holds each vertex once.** The definition of a graph has
/// one entry for each registered vertex and one for the terminal, and the
/// registered identities are distinct.
pub proof fn lemma_definition_once(edge: EdgeView)
    ensures
        match terminal_node(Seq::empty(), edge) {
            Some((cx, node)) => {
                &&& distinct_ids(cx)
                &&& definition_of(edge) == Some(assemble(nodes_of(cx).push(node)))
                &&& assemble(nodes_of(cx).push(node)).def.len() == cx.len() + 1
                &&& assemble(nodes_of(cx).push(node)).def.last() == node.bytes
            },
            None => definition_of(edge) is None,
        },
{
    lemma_register_once(Seq::empty(), edge.target);
}

/// **The terminal names its output by contents.** In a graph whose
/// identities each stand for one operation, the terminal's node has one
/// input: the digest of the vertex of its operation by contents, and the
/// index of the output.
pub proof fn lemma_terminal_input(edge: EdgeView)
    requires
        unique_ids(edge.target),
    ensures
        match terminal_node(Seq::empty(), edge) {
            Some((cx, node)) => node == NodeView::of(
                OpView {
                    inputs: seq![
                        InputView { digest: node_of(edge.target).digest, index: edge.index },
                    ],
                    op: None,
                },
                OpMetadataView::empty(),
            ) && agrees(cx, edge.target),
            None => true,
        },
{
    lemma_register_content(Seq::empty(), edge.target, edge.target);
}

/// Where `entry_index` finds a digest, the digest stands, and nowhere
/// before; where it finds none, the digest stands nowhere.
pub proof fn lemma_entry_index(entries: Seq<(Seq<char>, OpMetadataView)>, digest: Seq<char>)
    ensures
        match entry_index(entries, digest) {
            Some(i) => 0 <= i < entries.len() && entries[i].0 == digest,
            None => forall|j: int| 0 <= j < entries.len() ==> entries[j].0 != digest,
        },
    decreases entries.len(),
{
    if entries.len() > 0 {
        lemma_entry_index(entries.drop_last(), digest);
        assert forall|j: int| 0 <= j < entries.len() - 1 implies entries[j]
            == entries.drop_last()[j] by {}
    }
}

/// Whether the entries stand in the order of their digests, each digest
/// before all that come after it.
pub open spec fn sorted(entries: Seq<(Seq<char>, OpMetadataView)>) -> bool {
    forall|i: int, j: int|
        0 <= i < j < entries.len() ==> text_lt(
            (#[trigger] entries[i]).0,
            (#[trigger] entries[j]).0,
        )
}

/// Whether an entry has the given digest.
pub open spec fn has_key(entries: Seq<(Seq<char>, OpMetadataView)>, digest: Seq<char>) -> bool {
    exists|i: int| 0 <= i < entries.len() && (#[trigger] entries[i]).0 == digest
}

/// Placing an entry with a new digest among entries in order keeps the
/// order and the entries, and adds the one.
pub proof fn lemma_place(
    entries: Seq<(Seq<char>, OpMetadataView)>,
    entry: (Seq<char>, OpMetadataView),
)
    requires
        sorted(entries),
        !has_key(entries, entry.0),
    ensures
        sorted(place(entries, entry)),
        place(entries, entry).len() == entries.len() + 1,
        forall|d: Seq<char>|
            #[trigger] has_key(place(entries, entry), d) <==> has_key(entries, d) || d == entry.0,
    decreases entries.len(),
{
    let after = place(entries, entry);
    if entries.len() == 0 {
        assert(after[0] == entry);
        assert forall|d: Seq<char>| #[trigger]
            has_key(after, d) <==> has_key(entries, d) || d == entry.0 by {
            if d == entry.0 {
                assert(after[0].0 == d);
            }
        }
    } else if text_lt(entries.last().0, entry.0) {
        assert forall|i: int, j: int| 0 <= i < j < after.len() implies text_lt(
            (#[trigger] after[i]).0,
            (#[trigger] after[j]).0,
        ) by {
            if j == after.len() - 1 {
                if i < entries.len() - 1 {
                    assert(text_lt(entries[i].0, entries[entries.len() - 1].0));
                    lemma_lt_transitive(entries[i].0, entries.last().0, entry.0);
                }
            } else {
                assert(text_lt(entries[i].0, entries[j].0));
            }
        }
        assert forall|d: Seq<char>| #[trigger]
            has_key(after, d) <==> has_key(entries, d) || d == entry.0 by {
            if has_key(entries, d) {
                let i = choose|i: int| 0 <= i < entries.len() && (#[trigger] entries[i]).0 == d;
                assert(after[i].0 == d);
            }
            if d == entry.0 {
                assert(after[entries.len() as int].0 == d);
            }
            if has_key(after, d) {
                let i = choose|i: int| 0 <= i < after.len() && (#[trigger] after[i]).0 == d;
                if i < entries.len() {
                    assert(entries[i].0 == d);
                }
            }
        }
    } else {
        let rest = entries.drop_last();
        let last = entries.last();
        assert(sorted(rest)) by {
            assert forall|i: int, j: int| 0 <= i < j < rest.len() implies text_lt(
                (#[trigger] rest[i]).0,
                (#[trigger] rest[j]).0,
            ) by {
                assert(text_lt(entries[i].0, entries[j].0));
            }
        }
        assert(!has_key(rest, entry.0)) by {
            if has_key(rest, entry.0) {
                let i = choose|i: int| 0 <= i < rest.len() && (#[trigger] rest[i]).0 == entry.0;
                assert(entries[i].0 == entry.0);
            }
        }
        lemma_place(rest, entry);
        let inner = place(rest, entry);
        assert(entries[entries.len() - 1].0 != entry.0);
        lemma_lt_total(last.0, entry.0);
        assert(text_lt(entry.0, last.0));
        assert forall|i: int, j: int| 0 <= i < j < after.len() implies text_lt(
            (#[trigger] after[i]).0,
            (#[trigger] after[j]).0,
        ) by {
            if j == after.len() - 1 {
                assert(has_key(inner, inner[i].0));
                if inner[i].0 != entry.0 {
                    let k = choose|k: int| 0 <= k < rest.len() && (#[trigger] rest[k]).0
                        == inner[i].0;
                    assert(text_lt(entries[k].0, entries[entries.len() - 1].0));
                }
            } else {
                assert(text_lt(inner[i].0, inner[j].0));
            }
        }
        assert forall|d: Seq<char>| #[trigger]
            has_key(after, d) <==> has_key(entries, d) || d == entry.0 by {
            if has_key(entries, d) {
                let i = choose|i: int| 0 <= i < entries.len() && (#[trigger] entries[i]).0 == d;
                if i < rest.len() {
                    assert(rest[i].0 == d);
                    assert(has_key(rest, d));
                    assert(has_key(inner, d));
                    let k = choose|k: int| 0 <= k < inner.len() && (#[trigger] inner[k]).0 == d;
                    assert(after[k].0 == d);
                } else {
                    assert(after[inner.len() as int].0 == d);
                }
            }
            if d == entry.0 {
                assert(has_key(inner, d));
                let k = choose|k: int| 0 <= k < inner.len() && (#[trigger] inner[k]).0 == d;
                assert(after[k].0 == d);
            }
            if has_key(after, d) {
                let i = choose|i: int| 0 <= i < after.len() && (#[trigger] after[i]).0 == d;
                if i < inner.len() {
                    assert(inner[i].0 == d);
                    assert(has_key(inner, d));
                    if has_key(rest, d) {
                        let k = choose|k: int| 0 <= k < rest.len() && (#[trigger] rest[k]).0 == d;
                        assert(entries[k].0 == d);
                    }
                } else {
                    assert(entries[entries.len() - 1].0 == d);
                }
            }
        }
    }
}

/// **Each digest is one metadata key.** The metadata of a definition holds
/// the digest of every node, each once, and its entries stand in the order
/// of their digests, so that their encoding does not depend on the order in
/// which a map is walked.
pub proof fn lemma_metadata_keys(nodes: Seq<NodeView>)
    ensures
        sorted(metadata_map(nodes)),
        forall|i: int, j: int|
            0 <= i < j < metadata_map(nodes).len() ==> (#[trigger] metadata_map(nodes)[i]).0 != (
            #[trigger] metadata_map(nodes)[j]).0,
        forall|k: int| 0 <= k < nodes.len() ==> has_key(metadata_map(nodes), #[trigger] nodes[k].digest),
    decreases nodes.len(),
{
    let after = metadata_map(nodes);
    if nodes.len() > 0 {
        let before = metadata_map(nodes.drop_last());
        let digest = nodes.last().digest;
        let entry = (digest, nodes.last().metadata);
        lemma_metadata_keys(nodes.drop_last());
        lemma_entry_index(before, digest);
        match entry_index(before, digest) {
            Some(at) => {
                assert forall|i: int, j: int| 0 <= i < j < after.len() implies text_lt(
                    (#[trigger] after[i]).0,
                    (#[trigger] after[j]).0,
                ) by {
                    assert(text_lt(before[i].0, before[j].0));
                }
                assert forall|k: int| 0 <= k < nodes.len() implies has_key(
                    after,
                    #[trigger] nodes[k].digest,
                ) by {
                    if k < nodes.len() - 1 {
                        assert(nodes[k] == nodes.drop_last()[k]);
                        let i = choose|i: int|
                            0 <= i < before.len() && (#[trigger] before[i]).0 == nodes[k].digest;
                        assert(after[i].0 == nodes[k].digest);
                    } else {
                        assert(after[at].0 == digest);
                    }
                }
            },
            None => {
                assert(!has_key(before, digest));
                lemma_place(before, entry);
                assert forall|k: int| 0 <= k < nodes.len() implies has_key(
                    after,
                    #[trigger] nodes[k].digest,
                ) by {
                    if k < nodes.len() - 1 {
                        assert(nodes[k] == nodes.drop_last()[k]);
                    }
                }
            },
        }
    }
    assert forall|i: int, j: int| 0 <= i < j < after.len() implies (#[trigger] after[i]).0 != (
    #[trigger] after[j]).0 by {
        lemma_lt_irreflexive(after[i].0);
    }
}

} // verus!
