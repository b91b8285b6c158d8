//! The item that methods are generated for.

use vstd::prelude::*;

use crate::args::Attribute;
use crate::field::Field;

verus! {

/// The generic parameters of an item, in the three forms that an `impl`
/// block needs them.
#[derive(Debug)]
pub struct Generics {
    /// The parameters with their bounds and angle brackets, or nothing.
    pub impl_generics: String,
    /// The parameters by name with their angle brackets, or nothing.
    pub ty_generics: String,
    /// The bounds after `where`, if there are any.
    pub where_clause: Option<String>,
}

/// The fields of a structure.
#[derive(Debug)]
pub enum Fields<F> {
    Named(Vec<Field<F>>),
    Unnamed(Vec<Field<F>>),
    Unit,
}

/// What kind of item it is.
#[derive(Debug)]
pub enum Data<F> {
    Struct(Fields<F>),
    Enum,
    Union,
}

/// An item with a `derive` on it. `S` is what the arguments of its own
/// attributes are read as, `F` the same for those of its fields.
#[derive(Debug)]
pub struct DeriveInput<S, F> {
    pub attrs: Vec<Attribute<S>>,
    pub ident: String,
    pub generics: Generics,
    pub data: Data<F>,
}

impl<F> Data<F> {
    /// The fields of a structure that has any: `None` for a unit structure
    /// and for an item that is no structure.
    pub open spec fn fields_spec(&self) -> Option<Seq<Field<F>>> {
        match self {
            Data::Struct(Fields::Named(fields)) => Some(fields@),
            Data::Struct(Fields::Unnamed(fields)) => Some(fields@),
            _ => None,
        }
    }

    /// Whether the item is a structure.
    pub open spec fn is_struct(&self) -> bool {
        self is Struct
    }
}

} // verus!
