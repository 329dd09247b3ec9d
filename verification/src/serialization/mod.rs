//! Serialization: operation identity, serialized vertices, the registry that
//! holds each vertex once, and the model that the contracts speak of.

pub mod context;
pub mod id;
pub mod model;
pub mod output;

pub use self::context::Context;
pub use self::id::{OperationId, OperationIds};
pub use self::model::{ContextView, EdgeView, OperationView};
pub use self::output::{Node, NodeView};
