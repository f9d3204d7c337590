//! The commands of the tool.

pub mod error;
pub mod format;
pub mod kind;
