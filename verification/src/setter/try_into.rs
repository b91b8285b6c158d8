//! The mutator that takes whatever may convert into the field's type.

use vstd::prelude::*;

use crate::args::{enabled, merge_bool};
use crate::item::{ItemFn, ItemFnView};

use super::context::ContextView;
use super::{gen, Context};

verus! {

/// The mutator that takes an argument of any type that may convert into
/// the field's type, and fails where the conversion does.
pub open spec fn setter_spec(ctx: ContextView) -> ItemFnView {
    ItemFnView {
        generics: "<ARG>"@,
        inputs: "&mut self, "@ + ctx.field.basename_spec() + ": ARG"@,
        output: "::std::result::Result<&mut Self, <ARG as ::std::convert::TryInto<"@
            + ctx.field.ty.text@ + ">>::Error>"@,
        where_clause: Some("ARG : ::std::convert::TryInto<"@ + ctx.field.ty.text@ + ">"@),
        block: ctx.field.name_spec() + " = ::std::convert::TryInto::<"@ + ctx.field.ty.text@
            + ">::try_into("@ + ctx.field.basename_spec() + ")?; Ok(self)"@,
        ..gen::setter_spec(ctx)
    }
}

/// The mutator that takes an argument of any type that may convert into
/// the field's type.
pub fn setter(ctx: &Context) -> (r: ItemFn)
    ensures
        r@ == setter_spec(ctx@),
{
    let mut setter = gen::setter(ctx);
    let arg_name = ctx.field.basename();
    let ty = ctx.field.ty.text.as_str();
    setter.generics = String::from_str("<ARG>");
    let mut inputs = String::from_str("&mut self, ");
    inputs.append(arg_name.as_str());
    inputs.append(": ARG");
    setter.inputs = inputs;
    let mut output = String::from_str(
        "::std::result::Result<&mut Self, <ARG as ::std::convert::TryInto<",
    );
    output.append(ty);
    output.append(">>::Error>");
    setter.output = output;
    let mut bound = String::from_str("ARG : ::std::convert::TryInto<");
    bound.append(ty);
    bound.append(">");
    setter.where_clause = Some(bound);
    let mut block = ctx.field.name();
    block.append(" = ::std::convert::TryInto::<");
    block.append(ty);
    block.append(">::try_into(");
    block.append(arg_name.as_str());
    block.append(")?; Ok(self)");
    setter.block = block;
    setter
}

impl ContextView {
    /// Whether `try_into` is asked for: by the field where it says so, else by the structure.
    pub open spec fn is_try_into_spec(&self) -> bool {
        enabled(&self.field.args.try_into, &self.struct_args.try_into)
    }
}

impl Context<'_> {
    /// Whether `try_into` asks for a mutator that may fail to convert: the
    /// field decides where it says so, else the structure.
    pub fn is_try_into(&self) -> (r: bool)
        ensures
            r == self@.is_try_into_spec(),
    {
        match merge_bool(&self.field.args.try_into, &self.struct_args.try_into) {
            Some(b) => b,
            None => false,
        }
    }
}

} // verus!
