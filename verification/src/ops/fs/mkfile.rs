//! Creating a file.

use vstd::prelude::*;

use crate::ops::exec::mount::AsPath;
use crate::ops::fs::path::{fits, LayerPath, LayerPathView};
use crate::ops::fs::sequence::{FileStepView, SequenceOperation, SequenceView};
use crate::pb;
use crate::serialization::OperationId;
use crate::serialization::EdgeView;
use crate::utils::{OperationOutput, OutputIdx};

verus! {

/// A copy of a byte vector.
pub fn copy_bytes(bytes: &Vec<u8>) -> (out: Vec<u8>)
    ensures
        out@ == bytes@,
{
    let mut out: Vec<u8> = Vec::new();
    crate::wire::put_raw(&mut out, bytes.as_slice());
    assert(out@ =~= bytes@);
    out
}

/// A file action that creates a file.
#[derive(Debug)]
pub struct MakeFileOperation<'a> {
    path: LayerPath<'a, String>,
    output: OutputIdx,
    data: Option<Vec<u8>>,
}

/// What a [`MakeFileOperation`] holds.
pub ghost struct MakeFileView {
    pub path: LayerPathView,
    pub output: u32,
    pub data: Option<Seq<u8>>,
}

impl MakeFileView {
    /// The outputs of other operations that the action consumes.
    pub open spec fn inputs(&self) -> Seq<EdgeView> {
        self.path.inputs()
    }

    /// The record of the action in a sequence with `count` inputs, of which
    /// those of this action begin at `offset`.
    pub open spec fn record(&self, count: int, offset: int) -> pb::FileActionView {
        pb::FileActionView {
            input: self.path.resolve(count, offset) as i64,
            secondary_input: -1i64,
            output: self.output as i64,
            action: Some(
                pb::ActionView::Mkfile(
                    pb::FileActionMkFileView {
                        path: self.path.path(),
                        mode: -1i32,
                        data: match self.data {
                            Some(data) => data,
                            None => Seq::empty(),
                        },
                        timestamp: -1i64,
                    },
                ),
            ),
        }
    }
}

impl<'a> View for MakeFileOperation<'a> {
    type V = MakeFileView;

    closed spec fn view(&self) -> MakeFileView
        decreases self, 0nat,
    {
        MakeFileView {
            path: self.path@,
            output: self.output.0,
            data: match self.data {
                Some(data) => Some(data@),
                None => None,
            },
        }
    }
}

impl<'a> MakeFileOperation<'a> {
    /// An action that creates the file `path` without contents and yields
    /// `output`.
    pub fn new<P: AsPath>(output: OutputIdx, path: LayerPath<'a, P>) -> (op: MakeFileOperation<'a>)
        ensures
            op@ == (MakeFileView { path: path@, output: output.0, data: None }),
    {
        MakeFileOperation { path: path.into_owned(), output, data: None }
    }

    /// Sets the contents of the file.
    pub fn data(self, bytes: Vec<u8>) -> (op: MakeFileOperation<'a>)
        ensures
            op@ == (MakeFileView { data: Some(bytes@), ..self@ }),
    {
        let mut op = self;
        op.data = Some(bytes);
        op
    }

    /// A sequence that holds this action alone.
    pub fn into_operation(self, id: OperationId) -> (sequence: SequenceOperation<'a>)
        ensures
            sequence@ == (SequenceView {
                id: id@,
                steps: seq![FileStepView::MakeFile(self@)],
                custom_name: None,
                ignore_cache: false,
            }),
    {
        let sequence = SequenceOperation::new(id).append(self);
        assert(sequence@.steps =~= seq![FileStepView::MakeFile(self@)]);
        sequence
    }

    /// The output that the action yields.
    pub fn output(&self) -> (output: i64)
        ensures
            output == self@.output,
    {
        self.output.to_i64()
    }

    /// The output of another operation that the action consumes, if any.
    pub fn source(&self) -> (source: Option<&OperationOutput<'a>>)
        ensures
            match source {
                Some(source) => self@.inputs() == seq![source@],
                None => self@.inputs() == Seq::<EdgeView>::empty(),
            },
    {
        match &self.path {
            LayerPath::Other(source, _) => Some(source),
            _ => None,
        }
    }

    /// The record of the action in a sequence with `count` inputs, of which
    /// those of this action begin at `offset`. Fails when the indices do not
    /// fit the wire.
    pub fn serialize_action(&self, count: u64, offset: u64) -> (result: Result<
        pb::FileAction,
        (),
    >)
        ensures
            match result {
                Ok(record) => fits(count as int, offset as int) && record@ == self@.record(
                    count as int,
                    offset as int,
                ),
                Err(_) => !fits(count as int, offset as int),
            },
    {
        if count > 0x7fff_ffff_0000_0000 || offset >= 0x7fff_ffff_ffff_ffff {
            return Err(());
        }
        Ok(pb::FileAction {
            input: self.path.resolve(count, offset),
            secondary_input: -1,
            output: self.output.to_i64(),
            action: Some(
                pb::Action::Mkfile(
                    pb::FileActionMkFile {
                        path: self.path.path(),
                        mode: -1,
                        data: match &self.data {
                            Some(data) => copy_bytes(data),
                            None => Vec::new(),
                        },
                        timestamp: -1,
                    },
                ),
            ),
        })
    }
}

} // verus!
