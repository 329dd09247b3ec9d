//! Copying a path from one layer to another.

use vstd::prelude::*;

use crate::ops::exec::mount::AsPath;
use crate::ops::fs::path::{fits, LayerPath, LayerPathView, UnsetPath};
use crate::ops::fs::sequence::{FileStepView, SequenceOperation, SequenceView};
use crate::pb;
use crate::serialization::OperationId;
use crate::serialization::EdgeView;
use crate::utils::{OperationOutput, OutputIdx};

verus! {

/// The switches of a copy.
#[derive(Debug, Clone, Copy, PartialEq, Eq)]
pub struct CopyFlags {
    pub follow_symlinks: bool,
    pub recursive: bool,
    pub create_path: bool,
    pub wildcard: bool,
}

/// A copy in the making. `From` and `To` tell how far it is: a copy starts
/// without source, gets its source, then its destination; only a copy with
/// both can join a sequence.
#[derive(Debug)]
pub struct CopyOperation<From, To> {
    source: From,
    destination: To,
    flags: CopyFlags,
}

/// A copy without source.
pub type OpWithoutSource = CopyOperation<UnsetPath, UnsetPath>;

/// A copy with its source.
pub type OpWithSource<'a> = CopyOperation<LayerPath<'a, String>, UnsetPath>;

/// A copy with source and destination.
pub type OpWithDestination<'a> = CopyOperation<
    LayerPath<'a, String>,
    (OutputIdx, LayerPath<'a, String>),
>;

/// What a copy with source and destination holds.
pub ghost struct CopyView {
    pub source: LayerPathView,
    pub output: u32,
    pub destination: LayerPathView,
    pub flags: CopyFlags,
}

impl CopyView {
    /// The outputs of other operations that the copy consumes: that of the
    /// source first, then that of the destination.
    pub open spec fn inputs(&self) -> Seq<EdgeView> {
        self.source.inputs() + self.destination.inputs()
    }

    /// The record of the copy in a sequence with `count` inputs, of which
    /// those of this copy begin at `offset`. The destination is the input,
    /// the source the secondary input; mode and timestamp are left alone.
    pub open spec fn record(&self, count: int, offset: int) -> pb::FileActionView {
        pb::FileActionView {
            input: self.destination.resolve(count, offset + self.source.inputs().len()) as i64,
            secondary_input: self.source.resolve(count, offset) as i64,
            output: self.output as i64,
            action: Some(
                pb::ActionView::Copy(
                    pb::FileActionCopyView {
                        src: self.source.path(),
                        dest: self.destination.path(),
                        mode: -1i32,
                        follow_symlink: self.flags.follow_symlinks,
                        dir_copy_contents: self.flags.recursive,
                        attempt_unpack_docker_compatibility: false,
                        create_dest_path: self.flags.create_path,
                        allow_wildcard: self.flags.wildcard,
                        allow_empty_wildcard: false,
                        timestamp: -1i64,
                    },
                ),
            ),
        }
    }
}

impl<From, To> CopyOperation<From, To> {
    /// The switches of the copy.
    pub closed spec fn flags(&self) -> CopyFlags {
        self.flags
    }

    /// The source, as far as it is given.
    pub closed spec fn source_part(&self) -> From {
        self.source
    }

    /// The destination, as far as it is given.
    pub closed spec fn destination_part(&self) -> To {
        self.destination
    }

    /// Sets whether symbolic links in the source are followed.
    pub fn follow_symlinks(self, value: bool) -> (op: Self)
        ensures
            op.flags() == (CopyFlags { follow_symlinks: value, ..self.flags() }),
            op.source_part() == self.source_part(),
            op.destination_part() == self.destination_part(),
    {
        let mut op = self;
        op.flags.follow_symlinks = value;
        op
    }

    /// Sets whether the contents of a source directory are copied.
    pub fn recursive(self, value: bool) -> (op: Self)
        ensures
            op.flags() == (CopyFlags { recursive: value, ..self.flags() }),
            op.source_part() == self.source_part(),
            op.destination_part() == self.destination_part(),
    {
        let mut op = self;
        op.flags.recursive = value;
        op
    }

    /// Sets whether the parent of the destination is created.
    pub fn create_path(self, value: bool) -> (op: Self)
        ensures
            op.flags() == (CopyFlags { create_path: value, ..self.flags() }),
            op.source_part() == self.source_part(),
            op.destination_part() == self.destination_part(),
    {
        let mut op = self;
        op.flags.create_path = value;
        op
    }

    /// Sets whether the source may hold wildcards.
    pub fn wildcard(self, value: bool) -> (op: Self)
        ensures
            op.flags() == (CopyFlags { wildcard: value, ..self.flags() }),
            op.source_part() == self.source_part(),
            op.destination_part() == self.destination_part(),
    {
        let mut op = self;
        op.flags.wildcard = value;
        op
    }
}

impl CopyOperation<UnsetPath, UnsetPath> {
    /// A copy without source or destination, every switch off.
    pub fn new() -> (op: OpWithoutSource)
        ensures
            op.flags() == (CopyFlags {
                follow_symlinks: false,
                recursive: false,
                create_path: false,
                wildcard: false,
            }),
    {
        CopyOperation {
            source: UnsetPath,
            destination: UnsetPath,
            flags: CopyFlags {
                follow_symlinks: false,
                recursive: false,
                create_path: false,
                wildcard: false,
            },
        }
    }

    /// Gives the copy its source.
    pub fn from<'a, P: AsPath>(self, source: LayerPath<'a, P>) -> (op: OpWithSource<'a>)
        ensures
            op.source_part()@ == source@,
            op.flags() == self.flags(),
    {
        CopyOperation { source: source.into_owned(), destination: UnsetPath, flags: self.flags }
    }
}

impl<'a> CopyOperation<LayerPath<'a, String>, UnsetPath> {
    /// Gives the copy its destination, and the output that it yields.
    pub fn to<P: AsPath>(self, output: OutputIdx, destination: LayerPath<'a, P>) -> (op:
        OpWithDestination<'a>)
        ensures
            op@ == (CopyView {
                source: self.source_part()@,
                output: output.0,
                destination: destination@,
                flags: self.flags(),
            }),
    {
        CopyOperation {
            source: self.source,
            destination: (output, destination.into_owned()),
            flags: self.flags,
        }
    }
}

impl<'a> View for CopyOperation<LayerPath<'a, String>, (OutputIdx, LayerPath<'a, String>)> {
    type V = CopyView;

    open spec fn view(&self) -> CopyView
        decreases self, 0nat,
    {
        CopyView {
            source: self.source_part()@,
            output: self.destination_part().0.0,
            destination: self.destination_part().1@,
            flags: self.flags(),
        }
    }
}

impl<'a> CopyOperation<LayerPath<'a, String>, (OutputIdx, LayerPath<'a, String>)> {
    /// A sequence that holds this copy alone.
    pub fn into_operation(self, id: OperationId) -> (sequence: SequenceOperation<'a>)
        ensures
            sequence@ == (SequenceView {
                id: id@,
                steps: seq![FileStepView::Copy(self@)],
                custom_name: None,
                ignore_cache: false,
            }),
    {
        let sequence = SequenceOperation::new(id).append(self);
        assert(sequence@.steps =~= seq![FileStepView::Copy(self@)]);
        sequence
    }

    /// The output that the copy yields.
    pub fn output(&self) -> (output: i64)
        ensures
            output == self@.output,
    {
        self.destination.0.to_i64()
    }

    /// The outputs of other operations that the copy consumes.
    pub fn sources(&self) -> (sources: Vec<&OperationOutput<'a>>)
        ensures
            sources@.len() == self@.inputs().len(),
            forall|i: int| 0 <= i < sources@.len() ==> (#[trigger] sources@[i])@ == self@.inputs()[i],
    {
        let mut sources: Vec<&OperationOutput<'a>> = Vec::new();
        if let LayerPath::Other(source, _) = &self.source {
            sources.push(source);
        }
        if let LayerPath::Other(source, _) = &self.destination.1 {
            sources.push(source);
        }
        sources
    }

    /// The record of the copy in a sequence with `count` inputs, of which
    /// those of this copy begin at `offset`. Fails when the indices do not
    /// fit the wire.
    pub fn serialize_action(&self, count: u64, offset: u64) -> (result: Result<
        pb::FileAction,
        (),
    >)
        ensures
            match result {
                Ok(record) => fits(count as int, offset as int) && record@ == self@.record(
                    count as int,
                    offset as int,
                ),
                Err(_) => !fits(count as int, offset as int),
            },
    {
        if count > 0x7fff_ffff_0000_0000 || offset >= 0x7fff_ffff_ffff_ffff {
            return Err(());
        }
        let shift: u64 = match &self.source {
            LayerPath::Other(..) => 1,
            _ => 0,
        };
        let second: u64 = match &self.destination.1 {
            LayerPath::Other(..) => offset + shift,
            _ => 0,
        };
        Ok(pb::FileAction {
            input: self.destination.1.resolve(count, second),
            secondary_input: self.source.resolve(count, offset),
            output: self.destination.0.to_i64(),
            action: Some(
                pb::Action::Copy(
                    pb::FileActionCopy {
                        src: self.source.path(),
                        dest: self.destination.1.path(),
                        mode: -1,
                        follow_symlink: self.flags.follow_symlinks,
                        dir_copy_contents: self.flags.recursive,
                        attempt_unpack_docker_compatibility: false,
                        create_dest_path: self.flags.create_path,
                        allow_wildcard: self.flags.wildcard,
                        allow_empty_wildcard: false,
                        timestamp: -1,
                    },
                ),
            ),
        })
    }
}

} // verus!
