//! Construction and serialization of BuildKit low-level builder graphs.
//!
//! A graph is built from sources, commands and file sequences, each holding
//! references to the outputs it consumes. A terminal turns the part of the
//! graph that one output depends on into a definition: the encoded vertices,
//! each once, addressed by the digest of their bytes.
//!
//! - [`ops`] holds the builders, [`utils`] the references between them.
//! - [`serialization`] holds the registry of vertices and the model that the
//!   contracts of the builders speak of.
//! - [`pb`] and [`wire`] hold the records and their encoding, [`digest`] the
//!   content addresses.
//! - [`laws`] and [`renaming`] state what holds of every graph.

pub mod digest;
pub mod laws;
pub mod ops;
pub mod ordering;
pub mod pb;
pub mod prelude;
pub mod renaming;
pub mod serialization;
pub mod text;
pub mod utils;
pub mod wire;
