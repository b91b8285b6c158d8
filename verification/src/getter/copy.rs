//! The accessor that returns the field by value.

use vstd::prelude::*;

use crate::args::enabled;
use crate::item::{ItemFn, ItemFnView};
use crate::ty::TypeExt;

use super::context::ContextView;
use super::{gen, Context};

verus! {

/// The type that a copy of the field has: the type behind the reference
/// where the field is one, else the field's own.
pub open spec fn copied_ty_spec(ctx: ContextView) -> Seq<char> {
    match ctx.field.ty.ref_elem_ty_spec() {
        Some(elem) => elem.text@,
        None => ctx.field.ty.text@,
    }
}

/// The accessor that returns a copy of the field, or of what it refers to.
pub open spec fn getter_spec(ctx: ContextView) -> ItemFnView {
    ItemFnView {
        output: copied_ty_spec(ctx),
        block: if ctx.field.ty.ref_elem_ty_spec() is Some {
            "* "@ + ctx.field.name_spec()
        } else {
            ctx.field.name_spec()
        },
        ..gen::getter_spec(ctx)
    }
}

/// The accessor that returns a copy of the field, or of what it refers to.
pub fn getter(ctx: &Context) -> (r: ItemFn)
    ensures
        r@ == getter_spec(ctx@),
{
    let mut getter = gen::getter(ctx);
    let elem = ctx.field.ty.ref_elem_ty();
    getter.output = match elem {
        Some(ty) => ty.text.clone(),
        None => ctx.field.ty.text.clone(),
    };
    getter.block = if elem.is_some() {
        let mut s = String::from_str("* ");
        s.append(ctx.field.name().as_str());
        s
    } else {
        ctx.field.name()
    };
    getter
}

impl ContextView {
    /// Whether `copy` is asked for: by the field where it says so, else by the structure.
    pub open spec fn is_copyable_spec(&self) -> bool {
        enabled(&self.field.args.copy, &self.struct_args.copy)
    }
}

impl Context<'_> {
    /// Whether `copy` asks for an accessor by value: the field decides
    /// where it says so, else the structure.
    pub fn is_copyable(&self) -> (r: bool)
        ensures
            r == self@.is_copyable_spec(),
    {
        match crate::args::merge_bool(&self.field.args.copy, &self.struct_args.copy) {
            Some(b) => b,
            None => false,
        }
    }
}

} // verus!
