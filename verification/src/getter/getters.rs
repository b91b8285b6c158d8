//! The accessors of one field, read by itself.

use vstd::prelude::*;

use crate::error::Error;
use crate::extract::{self, args_spec};
use crate::field::Field as BaseField;
use crate::item::{item_views, ItemFn, ItemFnView};

use super::context::ContextView;
use super::getter::getter_view;
use super::{borrow, gen, option, slice, string};
use super::{FieldArgs, Getter, MutableExt, StructArgs};

verus! {

/// A field of a structure, with the arguments of the structure and the
/// position of the field. Every attribute of the field that stands
/// outside it is handed on to its accessors.
#[derive(Debug)]
pub struct Getters<'a> {
    pub struct_args: &'a StructArgs,
    pub field: BaseField<FieldArgs>,
    /// The position of the field; what `field` itself holds is not read.
    pub field_idx: usize,
}

impl ContextView {
    /// The mutable accessor of a field that asks for `mut`. The first of
    /// these that applies decides its form: `opt`, `slice`, `str`,
    /// `borrow(..)`; where none applies it returns a mutable reference.
    pub open spec fn mutable_getter_spec(&self) -> Result<ItemFnView, Error> {
        if self.is_option_spec() is Err {
            Err(self.is_option_spec()->Err_0)
        } else if self.is_option_spec() == Ok::<bool, Error>(true) {
            option::mut_getter_spec(*self)
        } else if self.is_slice_spec() is Err {
            Err(self.is_slice_spec()->Err_0)
        } else if self.is_slice_spec() == Ok::<bool, Error>(true) {
            slice::mut_getter_spec(*self)
        } else if self.is_str_spec() is Err {
            Err(self.is_str_spec()->Err_0)
        } else if self.is_str_spec() == Ok::<bool, Error>(true) {
            Ok(string::mut_getter_spec(*self))
        } else if self.is_borrow_spec() {
            borrow::mut_getter_spec(*self)
        } else {
            Ok(gen::mut_getter_spec(*self))
        }
    }

    /// The methods of a field that is read by itself: none where `skip` is
    /// given; else its accessor and, where `mut` is asked for, its mutable
    /// accessor. The first fault on the way is the result.
    pub open spec fn getters_spec(&self) -> Result<Seq<ItemFnView>, Error> {
        if self.field.args.skip {
            Ok(Seq::empty())
        } else if self.getter_spec() is Err {
            Err(self.getter_spec()->Err_0)
        } else if !self.is_mutable_spec() {
            Ok(seq![self.getter_spec()->Ok_0])
        } else if self.mutable_getter_spec() is Err {
            Err(self.mutable_getter_spec()->Err_0)
        } else {
            Ok(seq![self.getter_spec()->Ok_0, self.mutable_getter_spec()->Ok_0])
        }
    }
}

/// What `Getters::to_tokens` appends: the fault in the `get` attributes of
/// the field, else the methods of the field.
pub open spec fn to_tokens_spec(getters: Getters) -> Result<Seq<ItemFnView>, Error> {
    match args_spec::<FieldArgs>(getters.field.attrs@, "get") {
        Err(e) => Err(e),
        Ok((field_args, field_attrs)) => getter_view(
            getters,
            field_args,
            field_attrs,
        ).getters_spec(),
    }
}

impl<'a> Getter<'a> {
    /// The mutable accessor of a field that asks for `mut`.
    pub fn mutable_getter(&self) -> (r: Result<ItemFn, Error>)
        ensures
            match r {
                Ok(f) => self@.mutable_getter_spec() == Ok::<ItemFnView, Error>(f@),
                Err(e) => self@.mutable_getter_spec() == Err::<ItemFnView, Error>(e),
            },
    {
        let ctx = &self.context;
        if ctx.is_option()? {
            option::mut_getter(ctx)
        } else if ctx.is_slice()? {
            slice::mut_getter(ctx)
        } else if ctx.is_str()? {
            Ok(string::mut_getter(ctx))
        } else if ctx.is_borrow() {
            borrow::mut_getter(ctx)
        } else {
            Ok(gen::mut_getter(ctx))
        }
    }
}

impl<'a> Getters<'a> {
    /// A field at the position `field_idx`, with the arguments of its structure.
    pub fn new(struct_args: &'a StructArgs, field: BaseField<FieldArgs>, field_idx: usize) -> (r:
        Self)
        ensures
            r == (Getters { struct_args, field, field_idx }),
    {
        Getters { struct_args, field, field_idx }
    }

    /// Appends the methods of the field to `tokens`: none where `skip` is
    /// given; else its accessor and, where `mut` is asked for, its mutable
    /// accessor. On a fault `tokens` stays as it was.
    pub fn to_tokens(self, tokens: &mut Vec<ItemFn>) -> (r: Result<(), Error>)
        ensures
            match r {
                Ok(_) => {
                    &&& to_tokens_spec(self) is Ok
                    &&& item_views(final(tokens)@) == item_views(old(tokens)@) + to_tokens_spec(
                        self,
                    )->Ok_0
                },
                Err(e) => {
                    &&& to_tokens_spec(self) == Err::<Seq<ItemFnView>, Error>(e)
                    &&& final(tokens)@ == old(tokens)@
                },
            },
    {
        let Getters { struct_args, field, field_idx } = self;
        let BaseField { attrs, vis, ident, ty, idx } = field;
        let (field_args, field_attrs) = extract::args::<FieldArgs>(attrs, "get")?;
        let rest = Getters {
            struct_args,
            field: BaseField { attrs: Vec::new(), vis, ident, ty, idx },
            field_idx,
        };
        let getter = Getter::new(rest, field_args, field_attrs);

        if getter.context.field.args.skip {
            proof {
                assert(item_views(tokens@) =~= item_views(tokens@) + Seq::<ItemFnView>::empty());
            }
            return Ok(());
        }
        let first = getter.context.getter()?;
        if getter.as_mutable().is_some() {
            let second = getter.mutable_getter()?;
            proof {
                assert(item_views(tokens@.push(first).push(second)) =~= item_views(tokens@)
                    + seq![first@, second@]);
            }
            tokens.push(first);
            tokens.push(second);
        } else {
            proof {
                assert(item_views(tokens@.push(first)) =~= item_views(tokens@) + seq![first@]);
            }
            tokens.push(first);
        }
        Ok(())
    }
}

} // verus!
