//! Accessor and mutator methods for the fields of a structure.
//!
//! A structure and its fields say through the attributes `get` and `set`
//! which methods they want. This library decides, field by field, which
//! methods that gives and writes them out:
//!
//! - [`args`] holds the arguments of an attribute, combines what several
//!   attributes say, and sets the arguments of a field against those of its
//!   structure;
//! - [`ty`] looks at the shape of a field's type;
//! - [`getter`] and [`setter`] choose the form of each method and write it;
//! - [`item`] holds a written method and gives it as source text;
//! - [`error`] names what can be wrong with the input.
//!
//! The input is held in plain values: a type is its source text and its
//! shape, an attribute its path, its text and its arguments as they were
//! read. Nothing here reads tokens or writes them.

pub mod args;
pub mod error;
pub mod extract;
pub mod field;
pub mod getter;
pub mod input;
pub mod item;
pub mod setter;
pub mod text;
pub mod ty;
pub mod vis;
