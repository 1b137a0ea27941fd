//! Consistency checks for a control-flow-graph based, effect-annotated
//! compiler intermediate representation, together with the width-heuristics
//! configuration used when rendering the source language.
//!
//! The IR lives in a [`ir::Context`]: append-only arenas of modules,
//! functions, blocks, instructions and metadata, cross-referenced by
//! index-based handles.  [`ir::Context::verify`] is the single entry point of
//! the pass: it checks the termination discipline of every block and
//! reconciles every function's declared storage-purity attribute against the
//! storage operations its body actually performs, collecting every
//! independent error rather than stopping at the first.

pub mod error;
pub mod heuristics;
pub mod ir;
pub mod storage;
pub mod verify;
