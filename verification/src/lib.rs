//! Build-time generator for interactive data-collection methods.
//!
//! Each field of a record carries an optional directive naming one of five
//! prompt kinds (input, password, confirm, select, multiselect).  The library
//! classifies the field's declared type shape, resolves directive and shape
//! into one canonical prompt specification, and renders a setter-like method
//! that drives the terminal-prompt library at runtime.

pub mod dialoguer_list;
pub mod emit;
pub mod laws;
pub mod meta;
pub mod text;
pub mod theme;
pub mod ty;
