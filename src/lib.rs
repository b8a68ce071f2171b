//! Source generator for typed Zenkit client bindings.
//!
//! A workspace schema (lists, fields, labels) is turned into Rust modules by
//! rendering a fixed set of templates against a scoped render context.
pub mod error;
pub mod generator;
pub mod invariants;
pub mod labels;
pub mod naming;
pub mod render;
pub mod schema;
pub mod templates;
