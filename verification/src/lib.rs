//! Detects whether a text is JSON, TOML or YAML and renders it again in the
//! pretty form of its own grammar.

pub mod cli;
pub mod commands;
pub mod grammar;
pub mod path;
pub mod text;
