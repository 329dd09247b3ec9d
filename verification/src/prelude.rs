//! The names that a graph is usually built with.

pub use crate::ops::exec::Mount;
pub use crate::ops::fs::LayerPath;
pub use crate::ops::source::ResolveMode;
pub use crate::ops::{
    Command, FileSystem, MultiBorrowedLastOutput, MultiBorrowedOutput, MultiOwnedLastOutput,
    MultiOwnedOutput, OperationBuilder, SingleBorrowedOutput, SingleOwnedOutput, Source, Terminal,
};
pub use crate::serialization::{OperationId, OperationIds};
pub use crate::utils::{OperationOutput, OutputIdx, OwnOutputIdx};
