//! Build-time generation of the glue that exposes native functions to an
//! embedded Python interpreter's module system.
//!
//! The crate works on a distilled view of the host syntax tree (see
//! [`model`]): attributes, parameters and types are carried as plain values,
//! and every node the generator does not inspect is kept behind an opaque
//! handle that the embedding layer resolves back to the real tree.  On that
//! view the pipeline reads a function's marker attribute, classifies its
//! parameters, and derives the records that describe the generated raw
//! callback, registration thunk and module entry point.

pub mod args;
pub mod attrs;
pub mod idents;
pub mod model;
pub mod module;
