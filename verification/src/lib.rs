//! Semantic-analysis core for a statically-typed configuration/schema
//! language: a naming pass that walks a syntax tree and builds a symbol
//! store, and a call-site argument checker that validates positional and
//! keyword arguments against a callee's signature.

pub mod ast;
pub mod check_table;
pub mod diag;
pub mod laws;
pub mod namer;
pub mod pos;
pub mod resolver;
pub mod strings;
pub mod suggest;
pub mod symbol;
pub mod ty;
