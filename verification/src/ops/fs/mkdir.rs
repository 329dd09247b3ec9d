//! Creating a directory.

use vstd::prelude::*;

use crate::ops::exec::mount::AsPath;
use crate::ops::fs::path::{fits, LayerPath, LayerPathView};
use crate::ops::fs::sequence::{FileStepView, SequenceOperation, SequenceView};
use crate::pb;
use crate::serialization::OperationId;
use crate::serialization::EdgeView;
use crate::utils::{OperationOutput, OutputIdx};

verus! {

/// A file action that creates a directory.
#[derive(Debug)]
pub struct MakeDirOperation<'a> {
    path: LayerPath<'a, String>,
    output: OutputIdx,
    make_parents: bool,
}

/// What a [`MakeDirOperation`] holds.
pub ghost struct MakeDirView {
    pub path: LayerPathView,
    pub output: u32,
    pub make_parents: bool,
}

impl MakeDirView {
    /// The outputs of other operations that the action consumes.
    pub open spec fn inputs(&self) -> Seq<EdgeView> {
        self.path.inputs()
    }

    /// The record of the action in a sequence with `count` inputs, of which
    /// those of this action begin at `offset`.
    pub open spec fn record(&self, count: int, offset: int) -> pb::FileActionView {
        pb::FileActionView {
            input: self.path.resolve(count, offset) as i64,
            secondary_input: -1i64,
            output: self.output as i64,
            action: Some(
                pb::ActionView::Mkdir(
                    pb::FileActionMkDirView {
                        path: self.path.path(),
                        mode: -1i32,
                        make_parents: self.make_parents,
                        timestamp: -1i64,
                    },
                ),
            ),
        }
    }
}

impl<'a> View for MakeDirOperation<'a> {
    type V = MakeDirView;

    closed spec fn view(&self) -> MakeDirView
        decreases self, 0nat,
    {
        MakeDirView { path: self.path@, output: self.output.0, make_parents: self.make_parents }
    }
}

impl<'a> MakeDirOperation<'a> {
    /// An action that creates the directory `path` and yields `output`; the
    /// parents of the directory are not created.
    pub fn new<P: AsPath>(output: OutputIdx, path: LayerPath<'a, P>) -> (op: MakeDirOperation<'a>)
        ensures
            op@ == (MakeDirView { path: path@, output: output.0, make_parents: false }),
    {
        MakeDirOperation { path: path.into_owned(), output, make_parents: false }
    }

    /// Sets whether the parents of the directory are created too.
    pub fn make_parents(self, value: bool) -> (op: MakeDirOperation<'a>)
        ensures
            op@ == (MakeDirView { make_parents: value, ..self@ }),
    {
        let mut op = self;
        op.make_parents = value;
        op
    }

    /// A sequence that holds this action alone.
    pub fn into_operation(self, id: OperationId) -> (sequence: SequenceOperation<'a>)
        ensures
            sequence@ == (SequenceView {
                id: id@,
                steps: seq![FileStepView::MakeDir(self@)],
                custom_name: None,
                ignore_cache: false,
            }),
    {
        let sequence = SequenceOperation::new(id).append(self);
        assert(sequence@.steps =~= seq![FileStepView::MakeDir(self@)]);
        sequence
    }

    /// The output that the action yields.
    pub fn output(&self) -> (output: i64)
        ensures
            output == self@.output,
    {
        self.output.to_i64()
    }

    /// The output of another operation that the action consumes, if any.
    pub fn source(&self) -> (source: Option<&OperationOutput<'a>>)
        ensures
            match source {
                Some(source) => self@.inputs() == seq![source@],
                None => self@.inputs() == Seq::<EdgeView>::empty(),
            },
    {
        match &self.path {
            LayerPath::Other(source, _) => Some(source),
            _ => None,
        }
    }

    /// The record of the action in a sequence with `count` inputs, of which
    /// those of this action begin at `offset`. Fails when the indices do not
    /// fit the wire.
    pub fn serialize_action(&self, count: u64, offset: u64) -> (result: Result<
        pb::FileAction,
        (),
    >)
        ensures
            match result {
                Ok(record) => fits(count as int, offset as int) && record@ == self@.record(
                    count as int,
                    offset as int,
                ),
                Err(_) => !fits(count as int, offset as int),
            },
    {
        if count > 0x7fff_ffff_0000_0000 || offset >= 0x7fff_ffff_ffff_ffff {
            return Err(());
        }
        Ok(pb::FileAction {
            input: self.path.resolve(count, offset),
            secondary_input: -1,
            output: self.output.to_i64(),
            action: Some(
                pb::Action::Mkdir(
                    pb::FileActionMkDir {
                        path: self.path.path(),
                        mode: -1,
                        make_parents: self.make_parents,
                        timestamp: -1,
                    },
                ),
            ),
        })
    }
}

} // verus!
