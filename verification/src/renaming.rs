//! Definitions do not depend on how identities were handed out.

use vstd::prelude::*;

use crate::laws::{alike, lemma_index_of};
use crate::ops::terminal::{assemble, definition_of, terminal_node};
use crate::serialization::model::{
    index_of, insert, nodes_of, register, register_inputs, serialize, ContextView, OperationView,
};
use crate::serialization::{EdgeView, NodeView};

verus! {

/// Whether `path` leads from `graph` down its inputs: each step is the
/// position of an input of the operation reached so far.
pub open spec fn valid(graph: OperationView, path: Seq<int>) -> bool
    decreases path.len(),
{
    path.len() == 0 || (valid(graph, path.drop_last()) && 0 <= path.last() < at(
        graph,
        path.drop_last(),
    ).inputs.len())
}

/// The operation that `path` leads to.
pub open spec fn at(graph: OperationView, path: Seq<int>) -> OperationView
    decreases path.len(),
{
    if path.len() == 0 {
        graph
    } else {
        at(graph, path.drop_last()).inputs[path.last()].target
    }
}

/// Whether two graphs share their operations in the same way: two paths lead
/// to one identity in the one exactly when they do in the other.
pub open spec fn same_sharing(a: OperationView, b: OperationView) -> bool {
    forall|p: Seq<int>, q: Seq<int>|
        #![trigger at(a, p), at(a, q)]
        valid(a, p) && valid(a, q) ==> (at(a, p).id == at(a, q).id <==> at(b, p).id == at(b, q).id)
}

/// Two contexts that hold the same vertices in the same order, and in which
/// the operations at equal places of the two graphs are registered at equal
/// positions or not at all.
pub open spec fn related(
    cxa: ContextView,
    cxb: ContextView,
    a: OperationView,
    b: OperationView,
) -> bool {
    &&& nodes_of(cxa) == nodes_of(cxb)
    &&& forall|p: Seq<int>|
        valid(a, p) ==> index_of(cxa, #[trigger] at(a, p).id) == index_of(cxb, at(b, p).id)
}

/// Operations at equal places of graphs that are alike are alike.
pub proof fn lemma_alike_at(a: OperationView, b: OperationView, path: Seq<int>)
    requires
        alike(a, b),
        valid(a, path),
    ensures
        valid(b, path),
        alike(at(a, path), at(b, path)),
    decreases path.len(),
{
    if path.len() > 0 {
        lemma_alike_at(a, b, path.drop_last());
        let x = at(a, path.drop_last());
        assert(x.inputs[path.last()].index == at(b, path.drop_last()).inputs[path.last()].index);
    }
}

/// A step further down a valid path is a valid path.
pub proof fn lemma_step(graph: OperationView, path: Seq<int>, next: int)
    requires
        valid(graph, path),
        0 <= next < at(graph, path).inputs.len(),
    ensures
        valid(graph, path.push(next)),
        at(graph, path.push(next)) == at(graph, path).inputs[next].target,
{
    assert(path.push(next).drop_last() =~= path);
}

/// Positions of identities after one more vertex is stored at the end.
pub proof fn lemma_index_of_push(cx: ContextView, id: u64, node: NodeView, other: u64)
    requires
        index_of(cx, id) is None,
    ensures
        index_of(cx.push((id, node)), other) == if other == id {
            Some(cx.len() as int)
        } else {
            index_of(cx, other)
        },
{
    assert(cx.push((id, node)).drop_last() =~= cx);
}

/// Positions of identities after the vertex at a position is replaced by one
/// with the same identity.
pub proof fn lemma_index_of_update(cx: ContextView, at: int, node: NodeView, other: u64)
    requires
        0 <= at < cx.len(),
    ensures
        index_of(cx.update(at, (cx[at].0, node)), other) == index_of(cx, other),
    decreases cx.len(),
{
    let after = cx.update(at, (cx[at].0, node));
    if at == cx.len() - 1 {
        assert(after.drop_last() =~= cx.drop_last());
    } else {
        assert(after.drop_last() =~= cx.drop_last().update(at, (cx[at].0, node)));
        lemma_index_of_update(cx.drop_last(), at, node, other);
    }
}

/// Registering operations at equal places of two graphs that are alike and
/// share alike, in related contexts, fails for both or gives the same digest
/// and related contexts.
pub proof fn lemma_register_related(
    cxa: ContextView,
    cxb: ContextView,
    a: OperationView,
    b: OperationView,
    path: Seq<int>,
)
    requires
        alike(a, b),
        same_sharing(a, b),
        related(cxa, cxb, a, b),
        valid(a, path),
    ensures
        match (register(cxa, at(a, path)), register(cxb, at(b, path))) {
            (Some((aa, da)), Some((ab, db))) => da == db && related(aa, ab, a, b),
            (None, None) => true,
            _ => false,
        },
    decreases at(a, path), 2nat, 0nat,
{
    let opa = at(a, path);
    let opb = at(b, path);
    lemma_index_of(cxa, opa.id);
    lemma_index_of(cxb, opb.id);
    match index_of(cxa, opa.id) {
        Some(i) => {
            assert(nodes_of(cxa)[i] == nodes_of(cxb)[i]);
        },
        None => {
            lemma_serialize_related(cxa, cxb, a, b, path);
            match (serialize(cxa, opa), serialize(cxb, opb)) {
                (Some((ra, na)), Some((rb, nb))) => {
                    let aa = insert(ra, opa.id, na);
                    let ab = insert(rb, opb.id, nb);
                    lemma_index_of(ra, opa.id);
                    lemma_index_of(rb, opb.id);
                    assert(nodes_of(ra).len() == nodes_of(rb).len());
                    match index_of(ra, opa.id) {
                        Some(k) => {
                            assert(nodes_of(aa) =~= nodes_of(ra).update(k, na));
                            assert(nodes_of(ab) =~= nodes_of(rb).update(k, nb));
                            assert forall|q: Seq<int>| valid(a, q) implies index_of(
                                aa,
                                #[trigger] at(a, q).id,
                            ) == index_of(ab, at(b, q).id) by {
                                lemma_index_of_update(ra, k, na, at(a, q).id);
                                lemma_index_of_update(rb, k, nb, at(b, q).id);
                            }
                        },
                        None => {
                            assert(nodes_of(aa) =~= nodes_of(ra).push(na));
                            assert(nodes_of(ab) =~= nodes_of(rb).push(nb));
                            assert forall|q: Seq<int>| valid(a, q) implies index_of(
                                aa,
                                #[trigger] at(a, q).id,
                            ) == index_of(ab, at(b, q).id) by {
                                lemma_index_of_push(ra, opa.id, na, at(a, q).id);
                                lemma_index_of_push(rb, opb.id, nb, at(b, q).id);
                                assert(at(a, path).id == at(a, q).id <==> at(b, path).id == at(
                                    b,
                                    q,
                                ).id);
                            }
                        },
                    }
                },
                _ => {},
            }
        },
    }
}

/// Serializing operations at equal places of two graphs that are alike and
/// share alike, in related contexts, fails for both or gives the same vertex
/// and related contexts.
pub proof fn lemma_serialize_related(
    cxa: ContextView,
    cxb: ContextView,
    a: OperationView,
    b: OperationView,
    path: Seq<int>,
)
    requires
        alike(a, b),
        same_sharing(a, b),
        related(cxa, cxb, a, b),
        valid(a, path),
    ensures
        match (serialize(cxa, at(a, path)), serialize(cxb, at(b, path))) {
            (Some((aa, na)), Some((ab, nb))) => na == nb && related(aa, ab, a, b),
            (None, None) => true,
            _ => false,
        },
    decreases at(a, path), 1nat, 0nat,
{
    lemma_alike_at(a, b, path);
    lemma_inputs_related(cxa, cxb, a, b, path, at(a, path).inputs.len());
}

/// Registering the inputs of operations at equal places of two graphs that
/// are alike and share alike, in related contexts, fails for both or gives
/// the same input edges and related contexts.
pub proof fn lemma_inputs_related(
    cxa: ContextView,
    cxb: ContextView,
    a: OperationView,
    b: OperationView,
    path: Seq<int>,
    count: nat,
)
    requires
        alike(a, b),
        same_sharing(a, b),
        related(cxa, cxb, a, b),
        valid(a, path),
    ensures
        match (
            register_inputs(cxa, at(a, path), count),
            register_inputs(cxb, at(b, path), count),
        ) {
            (Some((aa, ia)), Some((ab, ib))) => ia == ib && related(aa, ab, a, b),
            (None, None) => true,
            _ => false,
        },
    decreases at(a, path), 0nat, count,
{
    let opa = at(a, path);
    let opb = at(b, path);
    lemma_alike_at(a, b, path);
    if !(count == 0 || count > opa.inputs.len()) {
        lemma_inputs_related(cxa, cxb, a, b, path, (count - 1) as nat);
        match (
            register_inputs(cxa, opa, (count - 1) as nat),
            register_inputs(cxb, opb, (count - 1) as nat),
        ) {
            (Some((ba, ia)), Some((bb, ib))) => {
                lemma_step(a, path, count - 1);
                lemma_alike_at(a, b, path.push(count - 1));
                lemma_step(b, path, count - 1);
                assert(opa.inputs[count - 1].index == opb.inputs[count - 1].index);
                lemma_register_related(ba, bb, a, b, path.push(count - 1));
            },
            _ => {},
        }
    }
}

/// **Definitions do not depend on identities.** Two graphs that are alike
/// but for their identities, and that share their operations in the same
/// way, have the same definition, byte for byte, or have none.
pub proof fn lemma_definition_renamed(a: EdgeView, b: EdgeView)
    requires
        a.index == b.index,
        alike(a.target, b.target),
        same_sharing(a.target, b.target),
    ensures
        definition_of(a) == definition_of(b),
{
    let empty = Seq::<(u64, NodeView)>::empty();
    assert(valid(a.target, Seq::<int>::empty()));
    assert(at(a.target, Seq::<int>::empty()) == a.target);
    assert(at(b.target, Seq::<int>::empty()) == b.target);
    lemma_register_related(empty, empty, a.target, b.target, Seq::<int>::empty());
    match (terminal_node(empty, a), terminal_node(empty, b)) {
        (Some((ca, na)), Some((cb, nb))) => {
            assert(nodes_of(ca).push(na) == nodes_of(cb).push(nb));
        },
        _ => {},
    }
}

} // verus!
