//! The mutator of an optional field: it takes the value inside.

use vstd::prelude::*;

use crate::args::{enabled, merge_bool, AsBool};
use crate::error::Error;
use crate::item::{ItemFn, ItemFnView};
use crate::ty::{Type, TypeExt};

use super::context::ContextView;
use super::{gen, Context};

verus! {

/// The mutator that takes a value and stores it as `Some`; there is none
/// where the field is no `Option`.
pub open spec fn setter_spec(ctx: ContextView) -> Result<ItemFnView, Error> {
    match ctx.field.ty.inner_ty_spec("Option"@) {
        Some(inner) => Ok(
            ItemFnView {
                inputs: "&mut self, "@ + ctx.field.basename_spec() + ": "@ + inner.text@,
                block: ctx.field.name_spec() + " = ::std::option::Option::Some("@
                    + ctx.field.basename_spec() + "); self"@,
                ..gen::setter_spec(ctx)
            },
        ),
        None => Err(Error::NotOption),
    }
}

/// The mutator that takes a value and stores it as `Some`.
pub fn setter(ctx: &Context) -> (r: Result<ItemFn, Error>)
    ensures
        match r {
            Ok(f) => setter_spec(ctx@) == Ok::<ItemFnView, Error>(f@),
            Err(e) => setter_spec(ctx@) == Err::<ItemFnView, Error>(e),
        },
{
    let mut setter = gen::setter(ctx);
    let arg_name = ctx.field.basename();
    let inner = ctx.option_inner_ty()?;
    let mut inputs = String::from_str("&mut self, ");
    inputs.append(arg_name.as_str());
    inputs.append(": ");
    inputs.append(inner.text.as_str());
    setter.inputs = inputs;
    let mut block = ctx.field.name();
    block.append(" = ::std::option::Option::Some(");
    block.append(arg_name.as_str());
    block.append("); self");
    setter.block = block;
    Ok(setter)
}

impl ContextView {
    /// Whether the field gets the mutator of an `Option`. It does where
    /// `opt` is asked for and the field is an `Option`. Where the field
    /// itself asks for `opt` and is none, that is a fault; where only the
    /// structure asks, the field is passed over.
    pub open spec fn is_option_spec(&self) -> Result<bool, Error> {
        if enabled(&self.field.args.opt, &self.struct_args.opt) {
            if self.field.ty.inner_ty_spec("Option"@) is Some {
                Ok(true)
            } else if self.field.args.opt.as_bool_spec() == Some(true) {
                Err(Error::SetOptNotOption)
            } else {
                Ok(false)
            }
        } else {
            Ok(false)
        }
    }
}

impl Context<'_> {
    /// Whether the field gets the mutator of an `Option`.
    pub fn is_option(&self) -> (r: Result<bool, Error>)
        ensures
            r == self@.is_option_spec(),
    {
        let asked = match merge_bool(&self.field.args.opt, &self.struct_args.opt) {
            Some(b) => b,
            None => false,
        };
        if asked {
            if self.field.ty.option_inner_ty().is_some() {
                return Ok(true);
            }
            if self.field.args.opt.bool() {
                return Err(Error::SetOptNotOption);
            }
        }
        Ok(false)
    }

    /// The type inside the `Option` that the field is.
    pub fn option_inner_ty(&self) -> (r: Result<&Type, Error>)
        ensures
            match r {
                Ok(t) => self.field.ty.inner_ty_spec("Option"@) == Some(t),
                Err(e) => self.field.ty.inner_ty_spec("Option"@) is None && e == Error::NotOption,
            },
    {
        match self.field.ty.option_inner_ty() {
            Some(ty) => Ok(ty),
            None => Err(Error::NotOption),
        }
    }
}

} // verus!
