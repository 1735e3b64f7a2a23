//! Schema-driven UI-binding generation.
//!
//! Given a structural description of a data type (its fields or variants,
//! each with optional per-field configuration), this library produces two
//! rendering programs — a read-only view and an editable view — as ordered
//! tables of render actions that a host UI toolkit interprets.  The library
//! resolves per-field configuration with defaults and overrides, dispatches
//! over the three structural shapes (named fields, positional fields, no
//! fields) and over enum variants with a selector control, and preserves
//! declaration order exactly.

pub mod config;
pub mod generate;
pub mod labels;
pub mod laws;
pub mod paths;
pub mod program;
pub mod schema;
