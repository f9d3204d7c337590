//! The three grammars, each behind the parser and the printer of its crate.
//!
//! Nothing in these modules is proved: each function hands its argument to
//! the crate that owns the grammar, and its contract gives the answer a name.
//! A parsed document and a parser's error are carried as they come; the
//! library never looks inside one.

pub mod json;
pub mod toml;
pub mod yaml;
