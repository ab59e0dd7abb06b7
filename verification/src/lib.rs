//! Schema-driven generation of SQL data-access routines.
//!
//! A table description is validated into a [`table::Table`], bound to one of
//! the supported SQL dialects, and turned into the statements and accessor
//! descriptions that a row type needs: lookup by key, listing, insert, update,
//! partial update and delete.

pub mod backend;
pub mod emit;
pub mod error;
pub mod generate;
pub mod input;
pub mod laws;
pub mod name;
pub mod outcome;
pub mod parse;
pub mod patch;
pub mod patch_parse;
pub mod sql;
pub mod table;
pub mod template;
pub mod text;
