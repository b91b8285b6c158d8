//! The plain mutator of one field, read by itself.

use vstd::prelude::*;

use crate::error::Error;
use crate::extract::{self, args_spec};
use crate::field::Field as BaseField;
use crate::item::{item_views, ItemFn, ItemFnView};

use super::setter::setter_view;
use super::{gen, FieldArgs, Setter, StructArgs};

verus! {

/// A field of a structure, with the arguments of the structure. Every
/// attribute of the field that stands outside it is handed on to its
/// mutator.
#[derive(Debug)]
pub struct Setters<'a> {
    pub struct_args: &'a StructArgs,
    pub field: BaseField<FieldArgs>,
}

/// What `Setters::to_tokens` appends: the fault in the `set` attributes of
/// the field, else nothing where `skip` is given, else the plain mutator.
pub open spec fn to_tokens_spec(setters: Setters) -> Result<Seq<ItemFnView>, Error> {
    match args_spec::<FieldArgs>(setters.field.attrs@, "set") {
        Err(e) => Err(e),
        Ok((field_args, field_attrs)) => if field_args.skip {
            Ok(Seq::empty())
        } else {
            Ok(seq![gen::setter_spec(setter_view(setters, field_args, field_attrs))])
        },
    }
}

impl<'a> Setters<'a> {
    /// A field with the arguments of its structure.
    pub fn new(struct_args: &'a StructArgs, field: BaseField<FieldArgs>) -> (r: Self)
        ensures
            r == (Setters { struct_args, field }),
    {
        Setters { struct_args, field }
    }

    /// Appends the plain mutator of the field to `tokens`, or nothing
    /// where `skip` is given. On a fault `tokens` stays as it was.
    pub fn to_tokens(self, tokens: &mut Vec<ItemFn>) -> (r: Result<(), Error>)
        ensures
            match r {
                Ok(_) => {
                    &&& to_tokens_spec(self) is Ok
                    &&& item_views(final(tokens)@) == item_views(old(tokens)@) + to_tokens_spec(
                        self,
                    )->Ok_0
                },
                Err(e) => {
                    &&& to_tokens_spec(self) == Err::<Seq<ItemFnView>, Error>(e)
                    &&& final(tokens)@ == old(tokens)@
                },
            },
    {
        let Setters { struct_args, field } = self;
        let BaseField { attrs, vis, ident, ty, idx } = field;
        let (field_args, field_attrs) = extract::args::<FieldArgs>(attrs, "set")?;
        if field_args.skip {
            proof {
                assert(item_views(tokens@) =~= item_views(tokens@) + Seq::<ItemFnView>::empty());
            }
            return Ok(());
        }
        let rest = Setters {
            struct_args,
            field: BaseField { attrs: Vec::new(), vis, ident, ty, idx },
        };
        let setter = Setter::new(rest, field_args, field_attrs);
        let ghost before = item_views(tokens@);
        setter.to_tokens(tokens);
        proof {
            assert(before.push(gen::setter_spec(setter@)) =~= before + seq![
                gen::setter_spec(setter@),
            ]);
        }
        Ok(())
    }
}

} // verus!
