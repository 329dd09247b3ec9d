//! A sequence of file actions: one vertex of the graph.

use std::sync::Arc;
use vstd::prelude::*;
use vstd::string::StringExecFns;

use crate::ops::fs::copy::{CopyView, OpWithDestination};
use crate::ops::fs::mkdir::{MakeDirOperation, MakeDirView};
use crate::ops::fs::mkfile::{MakeFileOperation, MakeFileView};
use crate::ops::fs::path::fits;
use crate::ops::metadata::{build_metadata, metadata_of, text_opt, Capabilities};
use crate::ops::{
    MultiBorrowedLastOutput, MultiBorrowedOutput, MultiOwnedLastOutput, MultiOwnedOutput,
    OperationBuilder,
};
use crate::pb;
use crate::pb::file::action_views;
use crate::pb::op::input_views;
use crate::serialization::context::Context;
use crate::serialization::model::{
    lemma_register_inputs_fails, register_inputs, serialized, OperationView,
};
use crate::serialization::{EdgeView, Node, OperationId};
use crate::utils::{share, OperationArc, OperationOutput, OperationRef, OutputIdx};

verus! {

/// One action of a sequence.
#[derive(Debug)]
pub enum FileStep<'a> {
    Copy(OpWithDestination<'a>),
    MakeDir(MakeDirOperation<'a>),
    MakeFile(MakeFileOperation<'a>),
}

/// What a [`FileStep`] holds.
pub ghost enum FileStepView {
    Copy(CopyView),
    MakeDir(MakeDirView),
    MakeFile(MakeFileView),
}

impl FileStepView {
    /// The outputs of other operations that the action consumes, in order.
    pub open spec fn inputs(&self) -> Seq<EdgeView> {
        match self {
            FileStepView::Copy(op) => op.inputs(),
            FileStepView::MakeDir(op) => op.inputs(),
            FileStepView::MakeFile(op) => op.inputs(),
        }
    }

    /// The output that the action yields.
    pub open spec fn output(&self) -> u32 {
        match self {
            FileStepView::Copy(op) => op.output,
            FileStepView::MakeDir(op) => op.output,
            FileStepView::MakeFile(op) => op.output,
        }
    }

    /// The record of the action in a sequence with `count` inputs, of which
    /// those of this action begin at `offset`.
    pub open spec fn record(&self, count: int, offset: int) -> pb::FileActionView {
        match self {
            FileStepView::Copy(op) => op.record(count, offset),
            FileStepView::MakeDir(op) => op.record(count, offset),
            FileStepView::MakeFile(op) => op.record(count, offset),
        }
    }
}

impl<'a> View for FileStep<'a> {
    type V = FileStepView;

    open spec fn view(&self) -> FileStepView
        decreases self, 1nat,
    {
        match self {
            FileStep::Copy(op) => FileStepView::Copy(op@),
            FileStep::MakeDir(op) => FileStepView::MakeDir(op@),
            FileStep::MakeFile(op) => FileStepView::MakeFile(op@),
        }
    }
}

/// The inputs of a sequence: those of its actions, one action after the
/// other.
pub open spec fn step_edges(steps: Seq<FileStepView>) -> Seq<EdgeView>
    decreases steps.len(),
{
    if steps.len() == 0 {
        Seq::empty()
    } else {
        step_edges(steps.drop_last()) + steps.last().inputs()
    }
}

/// The records of the actions of a sequence with `count` inputs. The inputs
/// of an action begin where those of the actions before it end.
pub open spec fn step_records(steps: Seq<FileStepView>, count: int) -> Seq<pb::FileActionView>
    decreases steps.len(),
{
    if steps.len() == 0 {
        Seq::empty()
    } else {
        step_records(steps.drop_last(), count).push(
            steps.last().record(count, step_edges(steps.drop_last()).len() as int),
        )
    }
}

/// An action that can join a sequence.
pub trait FileOperation<'a>: Sized {
    /// What the action is, as a step of a sequence.
    spec fn step(&self) -> FileStepView;

    /// The action as a step of a sequence.
    fn into_step(self) -> (step: FileStep<'a>)
        ensures
            step@ == self.step(),
    ;
}

impl<'a> FileOperation<'a> for OpWithDestination<'a> {
    open spec fn step(&self) -> FileStepView {
        FileStepView::Copy(self@)
    }

    fn into_step(self) -> (step: FileStep<'a>) {
        FileStep::Copy(self)
    }
}

impl<'a> FileOperation<'a> for MakeDirOperation<'a> {
    open spec fn step(&self) -> FileStepView {
        FileStepView::MakeDir(self@)
    }

    fn into_step(self) -> (step: FileStep<'a>) {
        FileStep::MakeDir(self)
    }
}

impl<'a> FileOperation<'a> for MakeFileOperation<'a> {
    open spec fn step(&self) -> FileStepView {
        FileStepView::MakeFile(self@)
    }

    fn into_step(self) -> (step: FileStep<'a>) {
        FileStep::MakeFile(self)
    }
}

impl<'a> FileStep<'a> {
    /// The output that the action yields.
    pub fn output(&self) -> (output: u32)
        ensures
            output == self@.output(),
    {
        match self {
            FileStep::Copy(op) => op.output() as u32,
            FileStep::MakeDir(op) => op.output() as u32,
            FileStep::MakeFile(op) => op.output() as u32,
        }
    }

    /// The outputs of other operations that the action consumes.
    pub fn sources(&self) -> (sources: Vec<&OperationOutput<'a>>)
        ensures
            sources@.len() == self@.inputs().len(),
            forall|i: int| 0 <= i < sources@.len() ==> (#[trigger] sources@[i])@ == self@.inputs()[i],
    {
        match self {
            FileStep::Copy(op) => op.sources(),
            FileStep::MakeDir(op) => {
                let mut sources: Vec<&OperationOutput<'a>> = Vec::new();
                if let Some(source) = op.source() {
                    sources.push(source);
                }
                sources
            },
            FileStep::MakeFile(op) => {
                let mut sources: Vec<&OperationOutput<'a>> = Vec::new();
                if let Some(source) = op.source() {
                    sources.push(source);
                }
                sources
            },
        }
    }

    /// The record of the action in a sequence with `count` inputs, of which
    /// those of this action begin at `offset`. Fails when the indices do not
    /// fit the wire.
    pub fn serialize_action(&self, count: u64, offset: u64) -> (result: Result<
        pb::FileAction,
        (),
    >)
        ensures
            match result {
                Ok(record) => fits(count as int, offset as int) && record@ == self@.record(
                    count as int,
                    offset as int,
                ),
                Err(_) => !fits(count as int, offset as int),
            },
    {
        match self {
            FileStep::Copy(op) => op.serialize_action(count, offset),
            FileStep::MakeDir(op) => op.serialize_action(count, offset),
            FileStep::MakeFile(op) => op.serialize_action(count, offset),
        }
    }
}

/// A sequence of file actions.
#[derive(Debug)]
pub struct SequenceOperation<'a> {
    id: OperationId,
    inner: Vec<FileStep<'a>>,
    custom_name: Option<String>,
    ignore_cache: bool,
}

/// What a [`SequenceOperation`] holds.
pub ghost struct SequenceView {
    pub id: u64,
    pub steps: Seq<FileStepView>,
    pub custom_name: Option<Seq<char>>,
    pub ignore_cache: bool,
}

/// The capabilities of a sequence: `file.base`.
pub open spec fn file_caps() -> Capabilities {
    Capabilities { file_base: true, ..Capabilities::spec_none() }
}

impl SequenceView {
    /// The sequence as a vertex of the graph. Its inputs are those of its
    /// actions in order, not merged. It has an encoding when the indices of
    /// its layers fit the wire.
    pub open spec fn operation(&self) -> OperationView {
        OperationView {
            id: self.id,
            inputs: step_edges(self.steps),
            body: Some(
                pb::OpBodyView::File(
                    pb::FileOpView {
                        actions: step_records(self.steps, step_edges(self.steps).len() as int),
                    },
                ),
            ),
            metadata: metadata_of(self.custom_name, self.ignore_cache, file_caps()),
            encodable: step_edges(self.steps).len() + u32::MAX <= i64::MAX,
        }
    }

    /// The output of the last action, if there is an action.
    pub open spec fn last_output_index(&self) -> Option<u32> {
        if self.steps.len() == 0 {
            None
        } else {
            Some(self.steps.last().output())
        }
    }
}

impl<'a> View for SequenceOperation<'a> {
    type V = SequenceView;

    closed spec fn view(&self) -> SequenceView
        decreases self, 2nat,
    {
        SequenceView {
            id: self.id@,
            steps: Seq::new(
                self.inner@.len(),
                |i: int|
                    if 0 <= i < self.inner@.len() {
                        self.inner@[i]@
                    } else {
                        arbitrary()
                    },
            ),
            custom_name: text_opt(self.custom_name),
            ignore_cache: self.ignore_cache,
        }
    }
}

/// The inputs of the first actions of a sequence are the first inputs of the
/// sequence.
pub proof fn lemma_step_edges_prefix(steps: Seq<FileStepView>, count: int)
    requires
        0 <= count <= steps.len(),
    ensures
        step_edges(steps.take(count)).len() <= step_edges(steps).len(),
        step_edges(steps.take(count)) == step_edges(steps).take(
            step_edges(steps.take(count)).len() as int,
        ),
    decreases steps.len() - count,
{
    if count == steps.len() {
        assert(steps.take(count) =~= steps);
        assert(step_edges(steps).take(step_edges(steps).len() as int) =~= step_edges(steps));
    } else {
        lemma_step_edges_prefix(steps, count + 1);
        assert(steps.take(count + 1).drop_last() =~= steps.take(count));
        let longer = step_edges(steps.take(count + 1));
        let shorter = step_edges(steps.take(count));
        assert(shorter =~= longer.take(shorter.len() as int));
        assert(shorter =~= step_edges(steps).take(shorter.len() as int));
    }
}

impl<'a> SequenceOperation<'a> {
    /// The sequence as a vertex of the graph.
    pub open spec fn operation(&self) -> OperationView
        decreases self, 3nat,
    {
        self@.operation()
    }

    /// A sequence without actions.
    pub fn new(id: OperationId) -> (sequence: SequenceOperation<'a>)
        ensures
            sequence@ == (SequenceView {
                id: id@,
                steps: Seq::empty(),
                custom_name: None,
                ignore_cache: false,
            }),
    {
        let sequence = SequenceOperation {
            id,
            inner: Vec::new(),
            custom_name: None,
            ignore_cache: false,
        };
        assert(sequence@.steps =~= Seq::empty());
        sequence
    }

    /// Adds an action at the end.
    pub fn append<T: FileOperation<'a>>(self, op: T) -> (sequence: SequenceOperation<'a>)
        ensures
            sequence@ == (SequenceView { steps: self@.steps.push(op.step()), ..self@ }),
    {
        let mut sequence = self;
        sequence.inner.push(op.into_step());
        assert(sequence@.steps =~= self@.steps.push(op.step()));
        sequence
    }

    /// The output of the last action, if there is an action.
    pub fn last_output_index(&self) -> (index: Option<u32>)
        ensures
            index == self@.last_output_index(),
    {
        if self.inner.len() == 0 {
            None
        } else {
            Some(self.inner[self.inner.len() - 1].output())
        }
    }

    /// The identity of the operation.
    pub fn id(&self) -> (id: u64)
        ensures
            id == self@.id,
    {
        self.id.value()
    }

    /// The outputs that the actions consume, and for each action the place
    /// where its inputs begin.
    fn all_sources(&self) -> (found: (Vec<&OperationOutput<'a>>, Vec<usize>))
        ensures
            found.0@.len() == step_edges(self@.steps).len(),
            forall|i: int|
                0 <= i < found.0@.len() ==> (#[trigger] found.0@[i])@ == step_edges(self@.steps)[i],
            found.1@.len() == self@.steps.len(),
            forall|j: int|
                0 <= j < found.1@.len() ==> (#[trigger] found.1@[j]) == step_edges(
                    self@.steps.take(j),
                ).len(),
    {
        let mut sources: Vec<&OperationOutput<'a>> = Vec::new();
        let mut offsets: Vec<usize> = Vec::new();
        let ghost steps = self@.steps;
        let mut j: usize = 0;
        assert(steps.take(0) =~= Seq::empty());
        while j < self.inner.len()
            invariant
                j <= self.inner@.len(),
                steps == self@.steps,
                steps.len() == self.inner@.len(),
                sources@.len() == step_edges(steps.take(j as int)).len(),
                forall|i: int|
                    0 <= i < sources@.len() ==> (#[trigger] sources@[i])@ == step_edges(
                        steps.take(j as int),
                    )[i],
                offsets@.len() == j,
                forall|k: int|
                    0 <= k < j ==> (#[trigger] offsets@[k]) == step_edges(steps.take(k)).len(),
            decreases self.inner@.len() - j,
        {
            let found = self.inner[j].sources();
            offsets.push(sources.len());
            let ghost before = step_edges(steps.take(j as int));
            proof {
                assert(steps.take(j + 1).drop_last() =~= steps.take(j as int));
                assert(steps.take(j + 1).last() == self.inner@[j as int]@);
                assert(step_edges(steps.take(j + 1)) == before + self.inner@[j as int]@.inputs());
            }
            let mut i: usize = 0;
            while i < found.len()
                invariant
                    i <= found@.len(),
                    found@.len() == self.inner@[j as int]@.inputs().len(),
                    forall|n: int|
                        0 <= n < found@.len() ==> (#[trigger] found@[n])@
                            == self.inner@[j as int]@.inputs()[n],
                    sources@.len() == before.len() + i,
                    forall|n: int|
                        0 <= n < sources@.len() ==> (#[trigger] sources@[n])@ == (before
                            + self.inner@[j as int]@.inputs())[n],
                decreases found@.len() - i,
            {
                sources.push(found[i]);
                i = i + 1;
            }
            j = j + 1;
        }
        assert(steps.take(j as int) =~= steps);
        (sources, offsets)
    }

    /// Serializes the sequence. The outputs that its actions consume are
    /// registered in the order of the actions and become its inputs; then
    /// every action is written with the indices of its layers.
    pub fn serialize(&self, cx: &mut Context) -> (result: Result<Node, ()>)
        ensures
            serialized(old(cx)@, self.operation(), final(cx)@, result),
        decreases self.operation(), 0nat,
    {
        let (sources, offsets) = self.all_sources();
        let ghost steps = self@.steps;
        let ghost op = self.operation();
        if sources.len() as u64 > (i64::MAX as u64) - (u32::MAX as u64) {
            return Err(());
        }
        let count: u64 = sources.len() as u64;
        let mut inputs: Vec<pb::Input> = Vec::new();
        let mut k: usize = 0;
        assert(input_views(inputs@) =~= Seq::empty());
        while k < sources.len()
            invariant
                k <= sources@.len(),
                op == self.operation(),
                sources@.len() == op.inputs.len(),
                forall|i: int| 0 <= i < sources@.len() ==> (#[trigger] sources@[i])@ == op.inputs[i],
                inputs@.len() == k,
                register_inputs(old(cx)@, op, k as nat) == Some((cx@, input_views(inputs@))),
            decreases sources@.len() - k,
        {
            let source = sources[k];
            assert(source@ == op.inputs[k as int]);
            match source.register(cx) {
                Ok(edge) => {
                    inputs.push(edge);
                    assert(input_views(inputs@) =~= input_views(inputs@.drop_last()).push(edge@));
                },
                Err(_) => {
                    proof {
                        lemma_register_inputs_fails(
                            old(cx)@,
                            op,
                            (k + 1) as nat,
                            op.inputs.len(),
                        );
                    }
                    return Err(());
                },
            }
            k = k + 1;
        }
        let mut actions: Vec<pb::FileAction> = Vec::new();
        let mut j: usize = 0;
        assert(steps.take(0) =~= Seq::empty());
        assert(action_views(actions@) =~= Seq::empty());
        while j < self.inner.len()
            invariant
                j <= self.inner@.len(),
                steps == self@.steps,
                steps.len() == self.inner@.len(),
                offsets@.len() == steps.len(),
                forall|n: int|
                    0 <= n < offsets@.len() ==> (#[trigger] offsets@[n]) == step_edges(
                        steps.take(n),
                    ).len(),
                count == step_edges(steps).len(),
                count + u32::MAX <= i64::MAX,
                action_views(actions@) == step_records(steps.take(j as int), count as int),
            decreases self.inner@.len() - j,
        {
            proof {
                lemma_step_edges_prefix(steps, j + 1);
                assert(steps.take(j + 1).drop_last() =~= steps.take(j as int));
                assert(steps.take(j + 1).last() == self.inner@[j as int]@);
            }
            let offset = offsets[j] as u64;
            let record = match self.inner[j].serialize_action(count, offset) {
                Ok(record) => record,
                Err(e) => {
                    return Err(e);
                },
            };
            actions.push(record);
            assert(action_views(actions@) =~= action_views(actions@.drop_last()).push(record@));
            j = j + 1;
        }
        assert(steps.take(j as int) =~= steps);
        let head = pb::Op { inputs, op: Some(pb::OpBody::File(pb::FileOp { actions })) };
        let caps = Capabilities {
            exec_mount_bind: false,
            exec_mount_cache: false,
            exec_mount_cache_sharing: false,
            exec_mount_selector: false,
            exec_mount_ssh: false,
            file_base: true,
        };
        let metadata = build_metadata(&self.custom_name, self.ignore_cache, &caps);
        Ok(Node::new(head, metadata))
    }
}

impl<'a> MultiBorrowedOutput<'a> for SequenceOperation<'a> {
    fn output(&'a self, number: u32) -> (out: OperationOutput<'a>)
        ensures
            out@ == (EdgeView { target: self.operation(), index: number as i64 }),
    {
        OperationOutput::borrowed(OperationRef::Sequence(self), OutputIdx(number))
    }
}

impl<'a> MultiOwnedOutput<'a> for Arc<SequenceOperation<'a>> {
    fn output(&self, number: u32) -> (out: OperationOutput<'a>)
        ensures
            out@ == (EdgeView { target: self.operation(), index: number as i64 }),
    {
        OperationOutput::owned(OperationArc::Sequence(share(self)), OutputIdx(number))
    }
}

impl<'a> MultiBorrowedLastOutput<'a> for SequenceOperation<'a> {
    fn last_output(&'a self) -> (out: Option<OperationOutput<'a>>)
        ensures
            match self@.last_output_index() {
                Some(index) => out matches Some(o) && o@ == (EdgeView {
                    target: self.operation(),
                    index: index as i64,
                }),
                None => out is None,
            },
    {
        match self.last_output_index() {
            Some(index) => Some(
                OperationOutput::borrowed(OperationRef::Sequence(self), OutputIdx(index)),
            ),
            None => None,
        }
    }
}

impl<'a> MultiOwnedLastOutput<'a> for Arc<SequenceOperation<'a>> {
    fn last_output(&self) -> (out: Option<OperationOutput<'a>>)
        ensures
            match self@.last_output_index() {
                Some(index) => out matches Some(o) && o@ == (EdgeView {
                    target: self.operation(),
                    index: index as i64,
                }),
                None => out is None,
            },
    {
        match self.last_output_index() {
            Some(index) => Some(
                OperationOutput::owned(OperationArc::Sequence(share(self)), OutputIdx(index)),
            ),
            None => None,
        }
    }
}

impl<'a> OperationBuilder<'a> for SequenceOperation<'a> {
    fn custom_name(self, name: &str) -> (sequence: SequenceOperation<'a>)
        ensures
            sequence@ == (SequenceView { custom_name: Some(name@), ..self@ }),
    {
        let mut sequence = self;
        sequence.custom_name = Some(String::from_str(name));
        assert(sequence@.steps =~= self@.steps);
        sequence
    }

    fn ignore_cache(self, ignore: bool) -> (sequence: SequenceOperation<'a>)
        ensures
            sequence@ == (SequenceView { ignore_cache: ignore, ..self@ }),
    {
        let mut sequence = self;
        sequence.ignore_cache = ignore;
        assert(sequence@.steps =~= self@.steps);
        sequence
    }
}

} // verus!
