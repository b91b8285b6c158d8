//! The accessors that borrow the field as another type.

use vstd::prelude::*;

use crate::args::AsBool;
use crate::error::Error;
use crate::item::{ItemFn, ItemFnView};

use super::context::ContextView;
use super::{gen, Context};

verus! {

/// The accessor that borrows the field as the type that `borrow(..)`
/// names; there is none without that type.
pub open spec fn getter_spec(ctx: ContextView) -> Result<ItemFnView, Error> {
    match ctx.field.args.borrow {
        Some(arg) => Ok(
            ItemFnView {
                output: "& "@ + arg.args.text@,
                block: "::std::borrow::Borrow::borrow("@ + ctx.field.ref_spec()
                    + ctx.field.name_spec() + ")"@,
                ..gen::getter_spec(ctx)
            },
        ),
        None => Err(Error::GetBorrowWithoutType { span: ctx.attr_span_spec() }),
    }
}

/// The accessor that borrows the field mutably as the type that
/// `borrow_mut(..)` names; there is none without that type.
pub open spec fn mut_getter_spec(ctx: ContextView) -> Result<ItemFnView, Error> {
    match ctx.field.args.borrow_mut {
        Some(arg) => Ok(
            ItemFnView {
                output: "&mut "@ + arg.args.text@,
                block: "::std::borrow::BorrowMut::borrow_mut("@ + ctx.field.ref_mut_spec()
                    + ctx.field.name_spec() + ")"@,
                ..gen::mut_getter_spec(ctx)
            },
        ),
        None => Err(Error::GetBorrowMutWithoutType { span: ctx.attr_span_spec() }),
    }
}

/// The accessor that borrows the field as another type.
pub fn getter(ctx: &Context) -> (r: Result<ItemFn, Error>)
    ensures
        match r {
            Ok(f) => getter_spec(ctx@) == Ok::<ItemFnView, Error>(f@),
            Err(e) => getter_spec(ctx@) == Err::<ItemFnView, Error>(e),
        },
{
    let mut getter = gen::getter(ctx);
    let borrowed_ty = match ctx.field.args.borrow_ty() {
        Some(ty) => ty,
        None => {
            return Err(Error::GetBorrowWithoutType { span: ctx.attr_span() });
        },
    };
    let mut output = String::from_str("& ");
    output.append(borrowed_ty.text.as_str());
    getter.output = output;
    let mut block = String::from_str("::std::borrow::Borrow::borrow(");
    block.append(ctx.field.ref_());
    block.append(ctx.field.name().as_str());
    block.append(")");
    getter.block = block;
    Ok(getter)
}

/// The accessor that borrows the field mutably as another type.
pub fn mut_getter(ctx: &Context) -> (r: Result<ItemFn, Error>)
    ensures
        match r {
            Ok(f) => mut_getter_spec(ctx@) == Ok::<ItemFnView, Error>(f@),
            Err(e) => mut_getter_spec(ctx@) == Err::<ItemFnView, Error>(e),
        },
{
    let mut getter = gen::mut_getter(ctx);
    let borrowed_ty = match ctx.field.args.borrow_mut_ty() {
        Some(ty) => ty,
        None => {
            return Err(Error::GetBorrowMutWithoutType { span: ctx.attr_span() });
        },
    };
    let mut output = String::from_str("&mut ");
    output.append(borrowed_ty.text.as_str());
    getter.output = output;
    let mut block = String::from_str("::std::borrow::BorrowMut::borrow_mut(");
    block.append(ctx.field.ref_mut());
    block.append(ctx.field.name().as_str());
    block.append(")");
    getter.block = block;
    Ok(getter)
}

impl ContextView {
    /// Whether the field asks for `borrow(..)`.
    pub open spec fn is_borrow_spec(&self) -> bool {
        self.field.args.borrow is Some
    }

    /// Whether the field asks for `borrow_mut(..)`.
    pub open spec fn is_borrow_mut_spec(&self) -> bool {
        self.field.args.borrow_mut is Some
    }
}

impl Context<'_> {
    /// Whether the field asks for `borrow(..)`.
    pub fn is_borrow(&self) -> (r: bool)
        ensures
            r == self@.is_borrow_spec(),
    {
        self.field.args.borrow.bool()
    }

    /// Whether the field asks for `borrow_mut(..)`.
    pub fn is_borrow_mut(&self) -> (r: bool)
        ensures
            r == self@.is_borrow_mut_spec(),
    {
        self.field.args.borrow_mut.bool()
    }
}

} // verus!
