//! A schema compiler for a fixed binary wire format of persisted account
//! records: it validates the directives attached to a type declaration,
//! builds a schema model with per-field and per-variant policy, resolves a
//! byte-level discriminator per type name from a registry, and provides the
//! serializer and deserializer that the schema describes, in each of the
//! mutually exclusive enum-tagging strategies.

pub mod accounts;
pub mod analyze;
pub mod codec;
pub mod directives;
pub mod hooks;
pub mod laws;
pub mod reader;
pub mod registry;
pub mod schema;
pub mod value;
pub mod wire;
