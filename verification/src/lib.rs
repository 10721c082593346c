//! A line-oriented command interpreter core: command descriptors with alias
//! indirection, pattern-driven tokenization of input lines, variable-name
//! validation, and dispatch of parsed input to per-command behaviors.

pub mod command;
pub mod exit;
pub mod help;
pub mod laws;
pub mod registry;
pub mod regression;
pub mod store;
pub mod text;
