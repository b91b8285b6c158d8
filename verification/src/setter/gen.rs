//! The plain mutator: it takes a value of the field's type.

use vstd::prelude::*;

use crate::item::{ItemFn, ItemFnView};
use crate::text::clone_strings;

use super::context::ContextView;
use super::Context;

verus! {

/// The mutator that stores its argument in the field and returns `self`.
pub open spec fn setter_spec(ctx: ContextView) -> ItemFnView {
    ItemFnView {
        attrs: ctx.field.attrs,
        vis: ctx.vis_spec(),
        constness: false,
        ident: ctx.method_name_spec(),
        generics: ""@,
        inputs: "&mut self, "@ + ctx.field.basename_spec() + ": "@ + ctx.field.ty.text@,
        output: "&mut Self"@,
        where_clause: None,
        block: ctx.field.name_spec() + " = "@ + ctx.field.basename_spec() + "; self"@,
    }
}

/// The mutator that stores its argument in the field and returns `self`.
pub fn setter(ctx: &Context) -> (r: ItemFn)
    ensures
        r@ == setter_spec(ctx@),
{
    let arg_name = ctx.field.basename();
    let mut inputs = String::from_str("&mut self, ");
    inputs.append(arg_name.as_str());
    inputs.append(": ");
    inputs.append(ctx.field.ty.text.as_str());
    let mut block = ctx.field.name();
    block.append(" = ");
    block.append(arg_name.as_str());
    block.append("; self");
    ItemFn {
        attrs: clone_strings(&ctx.field.attrs),
        vis: ctx.vis(),
        constness: false,
        ident: ctx.method_name(),
        generics: String::from_str(""),
        inputs,
        output: String::from_str("&mut Self"),
        where_clause: None,
        block,
    }
}

} // verus!
