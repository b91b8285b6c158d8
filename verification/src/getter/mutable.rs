//! The plain mutable accessor of a field that asks for one.

use vstd::prelude::*;

use crate::item::{item_views, ItemFn};

use super::context::ContextView;
use super::{gen, Getter};

verus! {

/// A field that gets a mutable accessor.
#[derive(Debug)]
pub struct MutGetter<'a> {
    pub getter: &'a Getter<'a>,
}

impl<'a> View for MutGetter<'a> {
    type V = ContextView;

    open spec fn view(&self) -> ContextView {
        self.getter@
    }
}

impl<'a> MutGetter<'a> {
    /// The name of the mutable accessor: that of the accessor and `_mut`.
    pub fn method_name(&self) -> (r: String)
        ensures
            r@ == self@.mut_method_name_spec(),
    {
        self.getter.context.mut_method_name()
    }

    /// Appends the plain mutable accessor, which returns a mutable
    /// reference to the field.
    pub fn to_tokens(&self, tokens: &mut Vec<ItemFn>)
        ensures
            item_views(final(tokens)@) == item_views(old(tokens)@).push(
                gen::mut_getter_spec(self@),
            ),
    {
        let getter = gen::mut_getter(&self.getter.context);
        proof {
            assert(item_views(tokens@.push(getter)) =~= item_views(tokens@).push(getter@));
        }
        tokens.push(getter);
    }
}

/// A field that may get a mutable accessor.
pub trait MutableExt {
    /// Whether `mut` is asked for.
    spec fn is_mutable_spec(&self) -> bool;

    /// The field as one that gets a mutable accessor, where `mut` is asked
    /// for: by the field where it says so, else by the structure.
    fn as_mutable(&self) -> (r: Option<MutGetter>)
        ensures
            r is Some == self.is_mutable_spec(),
    ;
}

impl MutableExt for Getter<'_> {
    open spec fn is_mutable_spec(&self) -> bool {
        self@.is_mutable_spec()
    }

    fn as_mutable(&self) -> (r: Option<MutGetter>) {
        if self.context.is_mutable() {
            Some(MutGetter { getter: self })
        } else {
            None
        }
    }
}

} // verus!
