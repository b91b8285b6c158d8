//! The plain mutator of one field, asked for by its structure.

use vstd::prelude::*;

use crate::error::Error;
use crate::field::Field as BaseField;
use crate::item::{item_views, ItemFn, ItemFnView};

use super::setters::to_tokens_spec;
use super::{FieldArgs, Setters, StructArgs};

verus! {

/// A field of a structure, with the arguments of the structure.
#[derive(Debug)]
pub struct Builder<'a> {
    pub struct_args: &'a StructArgs,
    pub field: BaseField<FieldArgs>,
}

impl<'a> Builder<'a> {
    /// A field with the arguments of its structure.
    pub fn new(struct_args: &'a StructArgs, field: BaseField<FieldArgs>) -> (r: Self)
        ensures
            r == (Builder { struct_args, field }),
    {
        Builder { struct_args, field }
    }

    /// Appends the plain mutator of the field to `tokens`, or nothing
    /// where `skip` is given: as `Setters` does. On a fault `tokens` stays
    /// as it was.
    pub fn to_tokens(self, tokens: &mut Vec<ItemFn>) -> (r: Result<(), Error>)
        ensures
            match r {
                Ok(_) => {
                    &&& to_tokens_spec(Setters { struct_args: self.struct_args, field: self.field })
                        is Ok
                    &&& item_views(final(tokens)@) == item_views(old(tokens)@) + to_tokens_spec(
                        Setters { struct_args: self.struct_args, field: self.field },
                    )->Ok_0
                },
                Err(e) => {
                    &&& to_tokens_spec(Setters { struct_args: self.struct_args, field: self.field })
                        == Err::<Seq<ItemFnView>, Error>(e)
                    &&& final(tokens)@ == old(tokens)@
                },
            },
    {
        Setters::new(self.struct_args, self.field).to_tokens(tokens)
    }
}

} // verus!
