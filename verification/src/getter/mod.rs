//! Accessor methods: which ones a field gets and how they read.

pub mod args;
pub mod borrow;
pub mod bytes;
pub mod clone;
pub mod context;
pub mod copy;
pub mod expand;
pub mod field;
pub mod gen;
pub mod getter;
pub mod getters;
pub mod mutable;
pub mod option;
pub mod slice;
pub mod string;

pub use self::args::{FieldArgs, StructArgs};
pub use self::context::Context;
pub use self::expand::expand;
pub use self::field::Field;
pub use self::getter::Getter;
pub use self::getters::Getters;
pub use self::mutable::{MutGetter, MutableExt};
