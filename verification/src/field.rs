//! A field of a structure.

use vstd::prelude::*;

use crate::args::Attribute;
use crate::text::{decimal, decimal_spec};
use crate::ty::Type;
use crate::vis::Visibility;

verus! {

/// A field of a structure, with its position among the fields. `A` is what
/// the arguments of its attributes are read as.
#[derive(Debug)]
pub struct Field<A> {
    pub attrs: Vec<Attribute<A>>,
    pub vis: Visibility,
    /// The name of the field; `None` in a tuple structure.
    pub ident: Option<String>,
    pub ty: Type,
    pub idx: usize,
}

/// The expression that reads a field of `self`: by its name, or, where it
/// has none, by its position cut down to 32 bits.
pub open spec fn field_name_spec(ident: Option<String>, idx: usize) -> Seq<char> {
    match ident {
        Some(name) => "self."@ + name@,
        None => "self."@ + decimal_spec((idx as u32) as nat),
    }
}

/// The expression that reads a field of `self`.
pub fn field_name(ident: &Option<String>, idx: usize) -> (r: String)
    ensures
        r@ == field_name_spec(*ident, idx),
{
    let mut s = String::from_str("self.");
    match ident {
        Some(name) => {
            s.append(name.as_str());
        },
        None => {
            let index: u32 = #[verifier::truncate]
            (idx as u32);
            s.append(decimal(index as usize).as_str());
        },
    }
    s
}

impl<A> Field<A> {
    /// A field from its parts.
    pub fn new(
        attrs: Vec<Attribute<A>>,
        vis: Visibility,
        ident: Option<String>,
        ty: Type,
        idx: usize,
    ) -> (r: Self)
        ensures
            r == (Field { attrs, vis, ident, ty, idx }),
    {
        Field { attrs, vis, ident, ty, idx }
    }

    /// The expression that reads this field of `self`: `self.name`, or
    /// `self.0` and so on in a tuple structure.
    pub fn name(&self) -> (r: String)
        ensures
            r@ == field_name_spec(self.ident, self.idx),
    {
        field_name(&self.ident, self.idx)
    }
}

} // verus!
