//! Content-addressed package graphs and their typed, read-only views.
//!
//! A package is stored as a directed acyclic graph of hashed nodes. The
//! modules under [`pkg`] rebuild one strongly typed view per node on demand,
//! [`schema`] holds the authoring-time value objects and their builders, and
//! [`builtin`] holds the decisions of the builtin function update.

pub mod builtin;
pub mod content;
pub mod encoding;
pub mod error;
pub mod graph;
pub mod hash;
pub mod hashed_node;
pub mod node;
pub mod pkg;
pub mod schema;
