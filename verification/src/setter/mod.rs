//! Mutator methods: which one a field gets and how it reads.

pub mod args;
pub mod builder;
pub mod context;
pub mod expand;
pub mod extend;
pub mod field;
pub mod gen;
pub mod into;
pub mod option;
pub mod setter;
pub mod setters;
pub mod try_into;

pub use self::args::{Extend, FieldArgs, StructArgs};
pub use self::builder::Builder;
pub use self::context::Context;
pub use self::expand::expand;
pub use self::field::Field;
pub use self::setter::Setter;
pub use self::setters::Setters;
