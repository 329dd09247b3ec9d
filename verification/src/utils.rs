//! Output indices and references to the outputs of operations.

use std::sync::Arc;
use vstd::prelude::*;

use crate::ops::exec::Command;
use crate::ops::fs::SequenceOperation;
use crate::ops::source::{GitSource, HttpSource, ImageSource, LocalSource};
use crate::pb::{Input, InputView};
use crate::serialization::context::Context;
use crate::serialization::model::{register, serialized, ContextView, OperationView};
use crate::serialization::{EdgeView, Node};

verus! {

/// The number of one of the outputs of an operation.
#[derive(Debug, Clone, Copy)]
pub struct OutputIdx(pub u32);

/// The number of an output of an earlier step of the same file sequence.
#[derive(Debug, Clone, Copy)]
pub struct OwnOutputIdx(pub u32);

impl OutputIdx {
    /// The index as it is written to the wire.
    pub fn to_i64(&self) -> (n: i64)
        ensures
            n == self.0,
    {
        self.0 as i64
    }
}

impl OwnOutputIdx {
    /// The index as a wide integer.
    pub fn to_i64(&self) -> (n: i64)
        ensures
            n == self.0,
    {
        self.0 as i64
    }
}

/// A second handle to a shared value.
///
/// Trusted: calls `Arc::clone`, which makes another pointer to the same
/// allocation; the value behind both is the same.
#[verifier::external_body]
pub(crate) fn share<T>(shared: &Arc<T>) -> (out: Arc<T>)
    ensures
        *out == **shared,
{
    Arc::clone(shared)
}

/// A borrowed operation of any kind.
#[derive(Debug, Clone, Copy)]
pub enum OperationRef<'a> {
    Image(&'a ImageSource),
    Git(&'a GitSource),
    Http(&'a HttpSource),
    Local(&'a LocalSource),
    Command(&'a Command<'a>),
    Sequence(&'a SequenceOperation<'a>),
}

/// A shared operation of any kind.
#[derive(Debug, Clone)]
pub enum OperationArc<'a> {
    Image(Arc<ImageSource>),
    Git(Arc<GitSource>),
    Http(Arc<HttpSource>),
    Local(Arc<LocalSource>),
    Command(Arc<Command<'a>>),
    Sequence(Arc<SequenceOperation<'a>>),
}

impl<'a> OperationRef<'a> {
    /// The operation as a vertex of the graph.
    pub open spec fn operation(&self) -> OperationView
        decreases self, 0nat,
    {
        match self {
            OperationRef::Image(op) => op.operation(),
            OperationRef::Git(op) => op.operation(),
            OperationRef::Http(op) => op.operation(),
            OperationRef::Local(op) => op.operation(),
            OperationRef::Command(op) => op.operation(),
            OperationRef::Sequence(op) => op.operation(),
        }
    }

    /// The identity of the operation.
    pub fn id(&self) -> (id: u64)
        ensures
            id == self.operation().id,
    {
        match self {
            OperationRef::Image(op) => op.id(),
            OperationRef::Git(op) => op.id(),
            OperationRef::Http(op) => op.id(),
            OperationRef::Local(op) => op.id(),
            OperationRef::Command(op) => op.id(),
            OperationRef::Sequence(op) => op.id(),
        }
    }

    /// Serializes the operation, registering what it consumes.
    pub fn serialize(&self, cx: &mut Context) -> (result: Result<Node, ()>)
        ensures
            serialized(old(cx)@, self.operation(), final(cx)@, result),
        decreases self.operation(), 1nat,
    {
        match self {
            OperationRef::Image(op) => op.serialize(cx),
            OperationRef::Git(op) => op.serialize(cx),
            OperationRef::Http(op) => op.serialize(cx),
            OperationRef::Local(op) => op.serialize(cx),
            OperationRef::Command(op) => op.serialize(cx),
            OperationRef::Sequence(op) => op.serialize(cx),
        }
    }
}

impl<'a> OperationArc<'a> {
    /// The operation as a vertex of the graph.
    pub open spec fn operation(&self) -> OperationView
        decreases self, 0nat,
    {
        match self {
            OperationArc::Image(op) => op.operation(),
            OperationArc::Git(op) => op.operation(),
            OperationArc::Http(op) => op.operation(),
            OperationArc::Local(op) => op.operation(),
            OperationArc::Command(op) => op.operation(),
            OperationArc::Sequence(op) => op.operation(),
        }
    }
}

/// Registers the operation behind a consumed output; the input edge that
/// results holds the digest that registration gave and the index of the
/// output.
pub open spec fn register_edge(cx: ContextView, edge: EdgeView) -> Option<(ContextView, InputView)> {
    match register(cx, edge.target) {
        Some((after, digest)) => Some((after, InputView { digest: digest, index: edge.index })),
        None => None,
    }
}

/// A reference to one output of an operation. The operation is either
/// borrowed or held through a shared handle; both stand for the same vertex.
#[derive(Debug, Clone)]
pub struct OperationOutput<'a> {
    kind: OperationOutputKind<'a>,
}

#[derive(Debug, Clone)]
enum OperationOutputKind<'a> {
    Owned(OperationArc<'a>, OutputIdx),
    Borrowed(OperationRef<'a>, OutputIdx),
}

impl<'a> View for OperationOutput<'a> {
    type V = EdgeView;

    closed spec fn view(&self) -> EdgeView
        decreases self, 0nat,
    {
        match self.kind {
            OperationOutputKind::Owned(op, idx) => EdgeView {
                target: op.operation(),
                index: idx.0 as i64,
            },
            OperationOutputKind::Borrowed(op, idx) => EdgeView {
                target: op.operation(),
                index: idx.0 as i64,
            },
        }
    }
}

impl<'a> OperationOutput<'a> {
    /// An output of a shared operation.
    pub fn owned(op: OperationArc<'a>, idx: OutputIdx) -> (out: OperationOutput<'a>)
        ensures
            out@ == (EdgeView { target: op.operation(), index: idx.0 as i64 }),
    {
        OperationOutput { kind: OperationOutputKind::Owned(op, idx) }
    }

    /// An output of a borrowed operation.
    pub fn borrowed(op: OperationRef<'a>, idx: OutputIdx) -> (out: OperationOutput<'a>)
        ensures
            out@ == (EdgeView { target: op.operation(), index: idx.0 as i64 }),
    {
        OperationOutput { kind: OperationOutputKind::Borrowed(op, idx) }
    }

    /// The operation that produces the output.
    pub fn operation(&self) -> (op: OperationRef<'_>)
        ensures
            op.operation() == self@.target,
    {
        match &self.kind {
            OperationOutputKind::Owned(op, _) => match op {
                OperationArc::Image(op) => OperationRef::Image(&**op),
                OperationArc::Git(op) => OperationRef::Git(&**op),
                OperationArc::Http(op) => OperationRef::Http(&**op),
                OperationArc::Local(op) => OperationRef::Local(&**op),
                OperationArc::Command(op) => OperationRef::Command(&**op),
                OperationArc::Sequence(op) => OperationRef::Sequence(&**op),
            },
            OperationOutputKind::Borrowed(op, _) => *op,
        }
    }

    /// Registers the operation that produces the output and gives the input
    /// edge that refers to the output.
    pub fn register(&self, cx: &mut Context) -> (result: Result<Input, ()>)
        ensures
            match register_edge(old(cx)@, self@) {
                Some((after, edge)) => result matches Ok(input) && input@ == edge && final(cx)@
                    == after,
                None => result is Err,
            },
        decreases self@, 0nat,
    {
        match cx.register(self.operation()) {
            Ok(digest) => Ok(Input { digest, index: self.output().to_i64() }),
            Err(e) => Err(e),
        }
    }

    /// Another reference to the same output of the same operation.
    pub fn duplicate(&self) -> (out: OperationOutput<'a>)
        ensures
            out@ == self@,
    {
        match &self.kind {
            OperationOutputKind::Owned(op, idx) => {
                let op = match op {
                    OperationArc::Image(op) => OperationArc::Image(share(op)),
                    OperationArc::Git(op) => OperationArc::Git(share(op)),
                    OperationArc::Http(op) => OperationArc::Http(share(op)),
                    OperationArc::Local(op) => OperationArc::Local(share(op)),
                    OperationArc::Command(op) => OperationArc::Command(share(op)),
                    OperationArc::Sequence(op) => OperationArc::Sequence(share(op)),
                };
                OperationOutput { kind: OperationOutputKind::Owned(op, *idx) }
            },
            OperationOutputKind::Borrowed(op, idx) => OperationOutput {
                kind: OperationOutputKind::Borrowed(*op, *idx),
            },
        }
    }

    /// The number of the output.
    pub fn output(&self) -> (idx: OutputIdx)
        ensures
            idx.0 as i64 == self@.index,
    {
        match &self.kind {
            OperationOutputKind::Owned(_, idx) => *idx,
            OperationOutputKind::Borrowed(_, idx) => *idx,
        }
    }
}

} // verus!
