//! File system operations.

pub mod copy;
pub mod mkdir;
pub mod mkfile;
pub mod path;
pub mod sequence;

pub use self::copy::{CopyFlags, CopyOperation, CopyView};
pub use self::mkdir::{MakeDirOperation, MakeDirView};
pub use self::mkfile::{MakeFileOperation, MakeFileView};
pub use self::path::{LayerPath, LayerPathView, UnsetPath};
pub use self::sequence::{
    FileOperation, FileStep, FileStepView, SequenceOperation, SequenceView,
};

use vstd::prelude::*;

use crate::ops::exec::mount::AsPath;
use crate::ops::fs::copy::OpWithoutSource;
use crate::serialization::OperationId;
use crate::utils::OutputIdx;

verus! {

/// The file system operations. A `COPY` line of a Dockerfile becomes a copy.
#[derive(Debug)]
pub struct FileSystem;

impl FileSystem {
    /// A sequence without actions.
    pub fn sequence(id: OperationId) -> (sequence: SequenceOperation<'static>)
        ensures
            sequence@ == (SequenceView {
                id: id@,
                steps: Seq::empty(),
                custom_name: None,
                ignore_cache: false,
            }),
    {
        SequenceOperation::new(id)
    }

    /// A copy without source or destination, every switch off.
    pub fn copy() -> (op: OpWithoutSource)
        ensures
            op.flags() == (CopyFlags {
                follow_symlinks: false,
                recursive: false,
                create_path: false,
                wildcard: false,
            }),
    {
        CopyOperation::new()
    }

    /// An action that creates the directory `layer` and yields `output`.
    pub fn mkdir<'a, P: AsPath>(output: OutputIdx, layer: LayerPath<'a, P>) -> (op:
        MakeDirOperation<'a>)
        ensures
            op@ == (MakeDirView { path: layer@, output: output.0, make_parents: false }),
    {
        MakeDirOperation::new(output, layer)
    }

    /// An action that creates the file `layer` and yields `output`.
    pub fn mkfile<'a, P: AsPath>(output: OutputIdx, layer: LayerPath<'a, P>) -> (op:
        MakeFileOperation<'a>)
        ensures
            op@ == (MakeFileView { path: layer@, output: output.0, data: None }),
    {
        MakeFileOperation::new(output, layer)
    }
}

} // verus!
