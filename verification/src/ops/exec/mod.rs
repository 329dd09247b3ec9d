//! Command execution.

pub mod command;
pub mod context;
pub mod mount;

pub use self::command::{Command, CommandView};
pub use self::mount::{AsPath, Mount, MountView};
