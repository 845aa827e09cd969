//! Declarative structural-mapping compiler.
//!
//! Given the token stream of a struct declaration annotated with mapping
//! directives, this library parses it into a typed syntax tree, resolves the
//! per-struct and per-field directives, and emits a structured description of
//! the conversion routine between the struct and a second, named struct.
//! The companion `convert` module holds the recursive conversion capability
//! that the emitted code delegates to for primitive and container types.

pub mod ast;
pub mod convert;
pub mod directive;
pub mod exttypes;
pub mod gen;
pub mod laws;
pub mod parse;
pub mod render;
pub mod token;

pub use convert::Doppleganger as Mirror;
