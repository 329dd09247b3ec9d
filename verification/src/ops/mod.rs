//! The operations that a graph is built from.

use std::sync::Arc;
use vstd::prelude::*;

use crate::utils::OperationOutput;

pub mod exec;
pub mod fs;
pub mod metadata;
pub mod source;
pub mod terminal;

pub use self::exec::Command;
pub use self::fs::FileSystem;
pub use self::source::Source;
pub use self::terminal::Terminal;

verus! {

/// An operation with several outputs, referred to by borrowing it.
pub trait MultiBorrowedOutput<'a> {
    /// The output with the given number.
    fn output(&'a self, number: u32) -> OperationOutput<'a>;
}

/// An operation whose last output can be referred to by borrowing it.
pub trait MultiBorrowedLastOutput<'a> {
    /// The output that was assigned last, if any was.
    fn last_output(&'a self) -> Option<OperationOutput<'a>>;
}

/// A shared operation with several outputs.
pub trait MultiOwnedOutput<'a> {
    /// The output with the given number.
    fn output(&self, number: u32) -> OperationOutput<'a>;
}

/// A shared operation whose last output can be referred to.
pub trait MultiOwnedLastOutput<'a> {
    /// The output that was assigned last, if any was.
    fn last_output(&self) -> Option<OperationOutput<'a>>;
}

/// An operation with one output, referred to by borrowing it.
pub trait SingleBorrowedOutput<'a> {
    /// The one output.
    fn output(&'a self) -> OperationOutput<'a>;
}

/// A shared operation with one output.
pub trait SingleOwnedOutput<'a> {
    /// The one output.
    fn output(&self) -> OperationOutput<'a>;
}

/// What every operation builder offers.
pub trait OperationBuilder<'a>: Sized {
    /// Sets the display name of the operation.
    fn custom_name(self, name: &str) -> Self;

    /// Sets whether the cache is ignored for the operation.
    fn ignore_cache(self, ignore: bool) -> Self;

    /// Moves the operation behind a shared handle, so that several holders
    /// can refer to its outputs.
    fn ref_counted(self) -> (shared: Arc<Self>)
        ensures
            *shared == self,
    {
        Arc::new(self)
    }
}

} // verus!
