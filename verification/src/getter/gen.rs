//! The plain accessors: a reference to the field.

use vstd::prelude::*;

use crate::args::enabled;
use crate::item::{ItemFn, ItemFnView};
use crate::text::clone_strings;

use super::context::ContextView;
use super::Context;

verus! {

/// The accessor that returns a shared reference to the field.
pub open spec fn getter_spec(ctx: ContextView) -> ItemFnView {
    ItemFnView {
        attrs: ctx.field.attrs,
        vis: ctx.vis_spec(),
        constness: ctx.constness_spec(),
        ident: ctx.method_name_spec(),
        generics: ""@,
        inputs: "&self"@,
        output: "& "@ + ctx.field.ty.text@,
        where_clause: None,
        block: "& "@ + ctx.field.name_spec(),
    }
}

/// The accessor that returns a mutable reference to the field. It is never `const`.
pub open spec fn mut_getter_spec(ctx: ContextView) -> ItemFnView {
    ItemFnView {
        attrs: ctx.field.attrs,
        vis: ctx.vis_spec(),
        constness: false,
        ident: ctx.mut_method_name_spec(),
        generics: ""@,
        inputs: "&mut self"@,
        output: "&mut "@ + ctx.field.ty.text@,
        where_clause: None,
        block: "&mut "@ + ctx.field.name_spec(),
    }
}

/// The accessor that returns a shared reference to the field.
pub fn getter(ctx: &Context) -> (r: ItemFn)
    ensures
        r@ == getter_spec(ctx@),
{
    let mut output = String::from_str("& ");
    output.append(ctx.field.ty.text.as_str());
    let mut block = String::from_str("& ");
    block.append(ctx.field.name().as_str());
    ItemFn {
        attrs: clone_strings(&ctx.field.attrs),
        vis: ctx.vis(),
        constness: ctx.constness(),
        ident: ctx.method_name(),
        generics: String::from_str(""),
        inputs: String::from_str("&self"),
        output,
        where_clause: None,
        block,
    }
}

/// The accessor that returns a mutable reference to the field.
pub fn mut_getter(ctx: &Context) -> (r: ItemFn)
    ensures
        r@ == mut_getter_spec(ctx@),
{
    let mut output = String::from_str("&mut ");
    output.append(ctx.field.ty.text.as_str());
    let mut block = String::from_str("&mut ");
    block.append(ctx.field.name().as_str());
    ItemFn {
        attrs: clone_strings(&ctx.field.attrs),
        vis: ctx.vis(),
        constness: false,
        ident: ctx.mut_method_name(),
        generics: String::from_str(""),
        inputs: String::from_str("&mut self"),
        output,
        where_clause: None,
        block,
    }
}

impl ContextView {
    /// Whether `mut` is asked for: by the field where it says so, else by the structure.
    pub open spec fn is_mutable_spec(&self) -> bool {
        enabled(&self.field.args.mutable, &self.struct_args.mutable)
    }
}

impl Context<'_> {
    /// Whether `mut` asks for a mutable accessor: the field decides where
    /// it says so, else the structure.
    pub fn is_mutable(&self) -> (r: bool)
        ensures
            r == self@.is_mutable_spec(),
    {
        match crate::args::merge_bool(&self.field.args.mutable, &self.struct_args.mutable) {
            Some(b) => b,
            None => false,
        }
    }
}

} // verus!
