//! The accessors of an optional field: an option of a reference.

use vstd::prelude::*;

use crate::args::{enabled, merge_bool, AsBool};
use crate::error::Error;
use crate::item::{ItemFn, ItemFnView};
use crate::ty::{Type, TypeExt};

use super::context::ContextView;
use super::{gen, Context};

verus! {

/// The accessor that returns the value of an `Option` by shared reference;
/// there is none where the field is no `Option`.
pub open spec fn getter_spec(ctx: ContextView) -> Result<ItemFnView, Error> {
    match ctx.field.ty.inner_ty_spec("Option"@) {
        Some(inner) => Ok(
            ItemFnView {
                output: "Option<& "@ + inner.text@ + ">"@,
                block: "::std::option::Option::as_ref(& "@ + ctx.field.name_spec() + ")"@,
                ..gen::getter_spec(ctx)
            },
        ),
        None => Err(Error::NotOption),
    }
}

/// The accessor that returns the value of an `Option` by mutable reference;
/// there is none where the field is no `Option`.
pub open spec fn mut_getter_spec(ctx: ContextView) -> Result<ItemFnView, Error> {
    match ctx.field.ty.inner_ty_spec("Option"@) {
        Some(inner) => Ok(
            ItemFnView {
                output: "Option<&mut "@ + inner.text@ + ">"@,
                block: "::std::option::Option::as_mut(&mut "@ + ctx.field.name_spec() + ")"@,
                ..gen::mut_getter_spec(ctx)
            },
        ),
        None => Err(Error::NotOption),
    }
}

/// The accessor that returns the value of an `Option` by shared reference.
pub fn getter(ctx: &Context) -> (r: Result<ItemFn, Error>)
    ensures
        match r {
            Ok(f) => getter_spec(ctx@) == Ok::<ItemFnView, Error>(f@),
            Err(e) => getter_spec(ctx@) == Err::<ItemFnView, Error>(e),
        },
{
    let mut getter = gen::getter(ctx);
    let inner = ctx.option_inner_ty()?;
    let mut output = String::from_str("Option<& ");
    output.append(inner.text.as_str());
    output.append(">");
    getter.output = output;
    let mut block = String::from_str("::std::option::Option::as_ref(& ");
    block.append(ctx.field.name().as_str());
    block.append(")");
    getter.block = block;
    Ok(getter)
}

/// The accessor that returns the value of an `Option` by mutable reference.
pub fn mut_getter(ctx: &Context) -> (r: Result<ItemFn, Error>)
    ensures
        match r {
            Ok(f) => mut_getter_spec(ctx@) == Ok::<ItemFnView, Error>(f@),
            Err(e) => mut_getter_spec(ctx@) == Err::<ItemFnView, Error>(e),
        },
{
    let mut getter = gen::mut_getter(ctx);
    let inner = ctx.option_inner_ty()?;
    let mut output = String::from_str("Option<&mut ");
    output.append(inner.text.as_str());
    output.append(">");
    getter.output = output;
    let mut block = String::from_str("::std::option::Option::as_mut(&mut ");
    block.append(ctx.field.name().as_str());
    block.append(")");
    getter.block = block;
    Ok(getter)
}

impl ContextView {
    /// Whether the field gets the accessors of an `Option`. It does where
    /// `opt` is asked for and the field is an `Option`. Where the field
    /// itself asks for `opt` and is none, that is a fault; where only the
    /// structure asks, the field is passed over.
    pub open spec fn is_option_spec(&self) -> Result<bool, Error> {
        if enabled(&self.field.args.opt, &self.struct_args.opt) {
            if self.field.ty.inner_ty_spec("Option"@) is Some {
                Ok(true)
            } else if self.field.args.opt.as_bool_spec() == Some(true) {
                Err(Error::GetOptNotOption)
            } else {
                Ok(false)
            }
        } else {
            Ok(false)
        }
    }
}

impl Context<'_> {
    /// Whether the field gets the accessors of an `Option`.
    pub fn is_option(&self) -> (r: Result<bool, Error>)
        ensures
            r == self@.is_option_spec(),
    {
        let asked = match merge_bool(&self.field.args.opt, &self.struct_args.opt) {
            Some(b) => b,
            None => false,
        };
        if asked {
            if self.field.ty.option_inner_ty().is_some() {
                return Ok(true);
            }
            if self.field.args.opt.bool() {
                return Err(Error::GetOptNotOption);
            }
        }
        Ok(false)
    }

    /// The type inside the `Option` that the field is.
    pub fn option_inner_ty(&self) -> (r: Result<&Type, Error>)
        ensures
            match r {
                Ok(t) => self.field.ty.inner_ty_spec("Option"@) == Some(t),
                Err(e) => self.field.ty.inner_ty_spec("Option"@) is None && e == Error::NotOption,
            },
    {
        match self.field.ty.option_inner_ty() {
            Some(ty) => Ok(ty),
            None => Err(Error::NotOption),
        }
    }
}

} // verus!
