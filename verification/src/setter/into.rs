//! The mutator that takes whatever converts into the field's type.

use vstd::prelude::*;

use crate::args::{enabled, merge_bool};
use crate::item::{ItemFn, ItemFnView};

use super::context::ContextView;
use super::{gen, Context};

verus! {

/// The mutator that takes an argument of any type that converts into the
/// field's type.
pub open spec fn setter_spec(ctx: ContextView) -> ItemFnView {
    ItemFnView {
        generics: "<ARG>"@,
        inputs: "&mut self, "@ + ctx.field.basename_spec() + ": ARG"@,
        where_clause: Some("ARG : ::std::convert::Into<"@ + ctx.field.ty.text@ + ">"@),
        block: ctx.field.name_spec() + " = ::std::convert::Into::into("@
            + ctx.field.basename_spec() + "); self"@,
        ..gen::setter_spec(ctx)
    }
}

/// The mutator that takes an argument of any type that converts into the
/// field's type.
pub fn setter(ctx: &Context) -> (r: ItemFn)
    ensures
        r@ == setter_spec(ctx@),
{
    let mut setter = gen::setter(ctx);
    let arg_name = ctx.field.basename();
    setter.generics = String::from_str("<ARG>");
    let mut inputs = String::from_str("&mut self, ");
    inputs.append(arg_name.as_str());
    inputs.append(": ARG");
    setter.inputs = inputs;
    let mut bound = String::from_str("ARG : ::std::convert::Into<");
    bound.append(ctx.field.ty.text.as_str());
    bound.append(">");
    setter.where_clause = Some(bound);
    let mut block = ctx.field.name();
    block.append(" = ::std::convert::Into::into(");
    block.append(arg_name.as_str());
    block.append("); self");
    setter.block = block;
    setter
}

impl ContextView {
    /// Whether `into` is asked for: by the field where it says so, else by the structure.
    pub open spec fn is_into_spec(&self) -> bool {
        enabled(&self.field.args.into, &self.struct_args.into)
    }
}

impl Context<'_> {
    /// Whether `into` asks for a converting mutator: the field decides
    /// where it says so, else the structure.
    pub fn is_into(&self) -> (r: bool)
        ensures
            r == self@.is_into_spec(),
    {
        match merge_bool(&self.field.args.into, &self.struct_args.into) {
            Some(b) => b,
            None => false,
        }
    }
}

} // verus!
