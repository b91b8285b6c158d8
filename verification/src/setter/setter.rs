//! One field whose arguments have been read, and its plain mutator.

use vstd::prelude::*;

use crate::args::{self, opt_text};
use crate::item::{item_views, ItemFn};
use crate::text::texts;
use crate::vis::Visibility;

use super::args::FieldArgsView;
use super::context::ContextView;
use super::field::FieldView;
use super::{gen, Context, Field, FieldArgs, Setters};

verus! {

/// A field with what `set` says on it and on its structure, and the
/// attributes that its mutator takes over.
#[derive(Debug)]
pub struct Setter<'a> {
    /// The same, as the functions that write the mutators take it.
    pub context: Context<'a>,
}

impl<'a> View for Setter<'a> {
    type V = ContextView;

    open spec fn view(&self) -> ContextView {
        self.context@
    }
}

/// The field of `setters` with the arguments `field_args` and the
/// attributes `field_attrs`: what `Setter::new` gives.
pub open spec fn setter_view(
    setters: Setters,
    field_args: FieldArgsView,
    field_attrs: Seq<Seq<char>>,
) -> ContextView {
    ContextView {
        struct_args: setters.struct_args@,
        struct_args_span: false,
        field: FieldView {
            vis: setters.field.vis,
            ident: setters.field.ident,
            ty: setters.field.ty,
            idx: setters.field.idx,
            args: field_args,
            args_span: false,
            attrs: field_attrs,
        },
    }
}

impl<'a> Setter<'a> {
    /// The field of `setters` with the arguments `field_args`, read from
    /// its attributes, and the attributes `field_attrs` that its mutator
    /// takes over. The attributes that `setters` still holds are dropped.
    pub fn new(setters: Setters<'a>, field_args: FieldArgs, field_attrs: Vec<String>) -> (r: Self)
        ensures
            r@ == setter_view(setters, field_args@, texts(field_attrs@)),
            r.context.struct_args == setters.struct_args,
    {
        let Setters { struct_args, field } = setters;
        Setter {
            context: Context {
                struct_args,
                struct_args_span: false,
                field: Field::new(
                    field.vis,
                    field.ident,
                    field.ty,
                    field.idx,
                    field_args,
                    false,
                    field_attrs,
                ),
            },
        }
    }

    /// The visibility of the mutator: what the field asks for, else what
    /// the structure asks for, else the field's own.
    pub fn vis(&self) -> (r: Visibility)
        ensures
            r == self@.vis_spec(),
    {
        self.context.vis()
    }

    /// The expression that reads the field of `self`.
    pub fn field_name(&self) -> (r: String)
        ensures
            r@ == self@.field.name_spec(),
    {
        self.context.field.name()
    }

    /// The name of the mutator: what `prefix` asks for, else `set_`; the
    /// name of the field; the suffix.
    pub fn method_name(&self) -> (r: String)
        ensures
            r@ == self@.method_name_spec(),
    {
        self.context.method_name()
    }

    /// The prefix that `prefix` asks for, with its underscore.
    pub fn prefix(&self) -> (r: Option<String>)
        ensures
            opt_text(r) == self@.prefix_arg_spec(),
    {
        self.context.prefix_arg()
    }

    /// The suffix that `suffix` asks for, with its underscore.
    pub fn suffix(&self) -> (r: Option<String>)
        ensures
            opt_text(r) == args::suffix_spec(self@.field.args.suffix, self@.struct_args.suffix),
    {
        args::suffix(&self.context.field.args.suffix, &self.context.struct_args.suffix)
    }

    /// The name that the mutator is built on, which is also the name of its
    /// argument: the one given by `rename`, else the field's own, else
    /// `arg` and its position.
    pub fn name(&self) -> (r: String)
        ensures
            r@ == self@.field.basename_spec(),
    {
        self.context.field.basename()
    }

    /// Appends the plain mutator, which stores its argument in the field.
    pub fn to_tokens(&self, tokens: &mut Vec<ItemFn>)
        ensures
            item_views(final(tokens)@) == item_views(old(tokens)@).push(gen::setter_spec(self@)),
    {
        let setter = gen::setter(&self.context);
        proof {
            assert(item_views(tokens@.push(setter)) =~= item_views(tokens@).push(setter@));
        }
        tokens.push(setter);
    }
}

} // verus!
