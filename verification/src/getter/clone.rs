//! The accessor that returns a clone of the field.

use vstd::prelude::*;

use crate::args::enabled;
use crate::item::{ItemFn, ItemFnView};

use super::context::ContextView;
use super::{copy, Context};

verus! {

/// The accessor that returns a clone of the field, or of what it refers to.
pub open spec fn getter_spec(ctx: ContextView) -> ItemFnView {
    ItemFnView {
        block: "::std::clone::Clone::clone("@ + ctx.field.ref_spec() + ctx.field.name_spec()
            + ")"@,
        ..copy::getter_spec(ctx)
    }
}

/// The accessor that returns a clone of the field, or of what it refers to.
pub fn getter(ctx: &Context) -> (r: ItemFn)
    ensures
        r@ == getter_spec(ctx@),
{
    let mut getter = copy::getter(ctx);
    let mut block = String::from_str("::std::clone::Clone::clone(");
    block.append(ctx.field.ref_name().as_str());
    block.append(")");
    proof {
        assert(block@ =~= "::std::clone::Clone::clone("@ + ctx@.field.ref_spec()
            + ctx@.field.name_spec() + ")"@);
    }
    getter.block = block;
    getter
}

impl ContextView {
    /// Whether `clone` is asked for: by the field where it says so, else by the structure.
    pub open spec fn is_cloneable_spec(&self) -> bool {
        enabled(&self.field.args.clone, &self.struct_args.clone)
    }
}

impl Context<'_> {
    /// Whether `clone` asks for an accessor that clones: the field decides
    /// where it says so, else the structure.
    pub fn is_cloneable(&self) -> (r: bool)
        ensures
            r == self@.is_cloneable_spec(),
    {
        match crate::args::merge_bool(&self.field.args.clone, &self.struct_args.clone) {
            Some(b) => b,
            None => false,
        }
    }
}

} // verus!
