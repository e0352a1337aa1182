//! Parsing of file-permission mode strings, either an octal numeral such as
//! `755` or a symbolic specification such as `u=rwX,go=rX`.
pub mod grammar;
pub mod laws;
pub mod parser;
pub mod types;

pub use parser::parse;
pub use types::{ChmodAction, ChmodActionOp, ChmodClause, ChmodMode, ChmodSymbolic};
