//! The LLB records and their wire encoding.

pub mod definition;
pub mod exec;
pub mod file;
pub mod op;
pub mod source;

pub use self::definition::{Definition, DefinitionView};
pub use self::exec::{
    CacheOpt, CacheOptView, CacheSharingOpt, ExecOp, ExecOpView, Meta, MetaView, Mount, MountType,
    MountView, NetMode, SecurityMode, SshOpt, SshOptView,
};
pub use self::file::{
    Action, ActionView, FileAction, FileActionCopy, FileActionCopyView, FileActionMkDir,
    FileActionMkDirView, FileActionMkFile, FileActionMkFileView, FileActionView, FileOp,
    FileOpView,
};
pub use self::op::{
    Input, InputView, Op, OpBody, OpBodyView, OpMetadata, OpMetadataView, OpView,
};
pub use self::source::{SourceOp, SourceOpView};
