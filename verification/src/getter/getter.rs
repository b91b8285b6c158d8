//! One field whose arguments have been read, and its plain accessor.

use vstd::prelude::*;

use crate::args::{self, opt_text};
use crate::item::{item_views, ItemFn};
use crate::text::texts;
use crate::vis::Visibility;

use super::args::FieldArgsView;
use super::context::ContextView;
use super::field::FieldView;
use super::{gen, Context, Field, FieldArgs, Getters};

verus! {

/// A field with what `get` says on it and on its structure, and the
/// attributes that its accessors take over.
#[derive(Debug)]
pub struct Getter<'a> {
    /// The same, as the functions that write the accessors take it.
    pub context: Context<'a>,
}

impl<'a> View for Getter<'a> {
    type V = ContextView;

    open spec fn view(&self) -> ContextView {
        self.context@
    }
}

/// The field of `getters` with the arguments `field_args` and the
/// attributes `field_attrs`: what `Getter::new` gives.
pub open spec fn getter_view(
    getters: Getters,
    field_args: FieldArgsView,
    field_attrs: Seq<Seq<char>>,
) -> ContextView {
    ContextView {
        struct_args: getters.struct_args@,
        struct_args_span: false,
        field: FieldView {
            vis: getters.field.vis,
            ident: getters.field.ident,
            ty: getters.field.ty,
            idx: getters.field_idx,
            args: field_args,
            args_span: false,
            attrs: field_attrs,
        },
    }
}

impl<'a> Getter<'a> {
    /// The field of `getters` with the arguments `field_args`, read from
    /// its attributes, and the attributes `field_attrs` that its accessors
    /// take over. The attributes that `getters` still holds are dropped.
    pub fn new(getters: Getters<'a>, field_args: FieldArgs, field_attrs: Vec<String>) -> (r: Self)
        ensures
            r@ == getter_view(getters, field_args@, texts(field_attrs@)),
            r.context.struct_args == getters.struct_args,
    {
        let Getters { struct_args, field, field_idx } = getters;
        Getter {
            context: Context {
                struct_args,
                struct_args_span: false,
                field: Field::new(
                    field.vis,
                    field.ident,
                    field.ty,
                    field_idx,
                    field_args,
                    false,
                    field_attrs,
                ),
            },
        }
    }

    /// The visibility of the accessors: what the field asks for, else what
    /// the structure asks for, else the field's own.
    pub fn vis(&self) -> (r: Visibility)
        ensures
            r == self@.vis_spec(),
    {
        self.context.vis()
    }

    /// Whether the accessor is `const`.
    pub fn constness(&self) -> (r: bool)
        ensures
            r == self@.constness_spec(),
    {
        self.context.constness()
    }

    /// The name of the accessor: prefix, name of the field, suffix.
    pub fn method_name(&self) -> (r: String)
        ensures
            r@ == self@.method_name_spec(),
    {
        self.context.method_name()
    }

    /// The prefix that `prefix` asks for, with its underscore.
    pub fn prefix(&self) -> (r: Option<String>)
        ensures
            opt_text(r) == args::prefix_spec(self@.field.args.prefix, self@.struct_args.prefix),
    {
        args::prefix(&self.context.field.args.prefix, &self.context.struct_args.prefix)
    }

    /// The suffix that `suffix` asks for, with its underscore.
    pub fn suffix(&self) -> (r: Option<String>)
        ensures
            opt_text(r) == args::suffix_spec(self@.field.args.suffix, self@.struct_args.suffix),
    {
        args::suffix(&self.context.field.args.suffix, &self.context.struct_args.suffix)
    }

    /// The name that the accessors are built on: the one given by
    /// `rename`, else the field's own, else `arg` and its position.
    pub fn name(&self) -> (r: String)
        ensures
            r@ == self@.field.basename_spec(),
    {
        self.context.field.basename()
    }

    /// Appends the plain accessor, which returns a shared reference to the field.
    pub fn to_tokens(&self, tokens: &mut Vec<ItemFn>)
        ensures
            item_views(final(tokens)@) == item_views(old(tokens)@).push(gen::getter_spec(self@)),
    {
        let getter = gen::getter(&self.context);
        proof {
            assert(item_views(tokens@.push(getter)) =~= item_views(tokens@).push(getter@));
        }
        tokens.push(getter);
    }
}

} // verus!
