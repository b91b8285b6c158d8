//! A field together with the defaults of its structure.

use vstd::prelude::*;

use crate::args::{
    self, count_named, first_invalid, invalid_attribute, kept_attrs, merged_args, push_metas,
    wrapped_metas,
};
use crate::error::{Error, Span};
use crate::field::Field as BaseField;
use crate::item::{item_views, ItemFn, ItemFnView};
use crate::vis::Visibility;

use super::args::StructArgsView;
use super::field::FieldView;
use super::{extend, gen, into, option, try_into};
use super::{Field, FieldArgs, StructArgs};

verus! {

/// A field with what `set` says on it and on its structure.
#[derive(Debug)]
pub struct Context<'a> {
    pub struct_args: &'a StructArgs,
    /// Whether the structure bears a `set` attribute.
    pub struct_args_span: bool,
    pub field: Field,
}

/// A field with what `set` says on it and on its structure, the lists as sequences.
pub struct ContextView {
    pub struct_args: StructArgsView,
    pub struct_args_span: bool,
    pub field: FieldView,
}

impl<'a> View for Context<'a> {
    type V = ContextView;

    open spec fn view(&self) -> ContextView {
        ContextView {
            struct_args: self.struct_args@,
            struct_args_span: self.struct_args_span,
            field: self.field@,
        }
    }
}

impl ContextView {
    /// Where a message about the field's arguments points: at the field's
    /// `set` attributes, else at those of the structure, else at the field.
    pub open spec fn attr_span_spec(&self) -> Span {
        if self.field.args_span {
            Span::FieldArgs
        } else if self.struct_args_span {
            Span::StructArgs
        } else {
            Span::Field
        }
    }

    /// The visibility of the methods: what the field asks for, else what
    /// the structure asks for, else the field's own.
    pub open spec fn vis_spec(&self) -> Visibility {
        args::vis_spec(self.field.args.vis, self.struct_args.vis, self.field.vis)
    }

    /// The prefix that `prefix` asks for, with its underscore.
    pub open spec fn prefix_arg_spec(&self) -> Option<Seq<char>> {
        args::prefix_spec(self.field.args.prefix, self.struct_args.prefix)
    }

    /// What stands before the field's name in the name of the mutator:
    /// what `prefix` asks for, else `set_`.
    pub open spec fn prefix_spec(&self) -> Seq<char> {
        match self.prefix_arg_spec() {
            Some(p) => p,
            None => "set_"@,
        }
    }

    /// The prefix for a method of another kind, such as `extend`: `prefix`
    /// and an underscore, after what `prefix` asks for and a further
    /// underscore where it asks for anything.
    pub open spec fn with_prefix_spec(&self, prefix: Seq<char>) -> Seq<char> {
        match self.prefix_arg_spec() {
            Some(arg) => arg + "_"@ + prefix,
            None => prefix + "_"@,
        }
    }

    /// What stands after the field's name in the names of the methods: an
    /// underscore and what `suffix` asks for, else nothing.
    pub open spec fn suffix_spec(&self) -> Seq<char> {
        match args::suffix_spec(self.field.args.suffix, self.struct_args.suffix) {
            Some(p) => p,
            None => Seq::empty(),
        }
    }

    /// The name of the mutator: prefix, name of the field, suffix.
    pub open spec fn method_name_spec(&self) -> Seq<char> {
        self.prefix_spec() + self.field.basename_spec() + self.suffix_spec()
    }

    /// The field `field` of a structure with the arguments `struct_args`,
    /// after its attributes have been read: what `set` says on it, and the
    /// attributes that its methods take over, which are those that
    /// `extract` keeps, then those that `attr(..)` asks for.
    pub open spec fn of(
        struct_args: StructArgsView,
        struct_args_span: bool,
        field: BaseField<FieldArgs>,
    ) -> ContextView {
        let field_args = merged_args(field.attrs@, "set"@);
        ContextView {
            struct_args,
            struct_args_span,
            field: FieldView {
                vis: field.vis,
                ident: field.ident,
                ty: field.ty,
                idx: field.idx,
                args: field_args,
                args_span: count_named(field.attrs@, "set"@) > 0,
                attrs: kept_attrs(field.attrs@, "set"@, struct_args.attrs) + wrapped_metas(
                    field_args.attr,
                ),
            },
        }
    }

    /// The methods of the field: none where `skip` is given; else those of
    /// the first of these that applies: `into`, `try_into`, `opt`,
    /// `extend`; where none applies the plain mutator. `extend` gives two
    /// methods, the others one. A fault in `opt` counts only where neither
    /// `into` nor `try_into` applies.
    pub open spec fn to_tokens_spec(&self) -> Result<Seq<ItemFnView>, Error> {
        if self.field.args.skip {
            Ok(Seq::empty())
        } else if self.is_into_spec() {
            Ok(seq![into::setter_spec(*self)])
        } else if self.is_try_into_spec() {
            Ok(seq![try_into::setter_spec(*self)])
        } else if self.is_option_spec() is Err {
            Err(self.is_option_spec()->Err_0)
        } else if self.is_option_spec() == Ok::<bool, Error>(true) {
            match option::setter_spec(*self) {
                Ok(f) => Ok(seq![f]),
                Err(e) => Err(e),
            }
        } else if self.is_extend_spec() {
            match extend::setter_spec(*self) {
                Ok(s) => Ok(seq![s.extend, s.append]),
                Err(e) => Err(e),
            }
        } else {
            Ok(seq![gen::setter_spec(*self)])
        }
    }
}

impl<'a> Context<'a> {
    /// Reads what `set` says on `field`, and sets aside the attributes of
    /// the field that the methods take over: those that `extract` keeps,
    /// then those that `attr(..)` asks for.
    ///
    /// Fails at the first `set` attribute whose arguments are faulty.
    pub fn new(
        struct_args: &'a StructArgs,
        struct_args_span: bool,
        field: BaseField<FieldArgs>,
    ) -> (r: Result<Self, Error>)
        ensures
            match r {
                Ok(ctx) => {
                    &&& first_invalid(field.attrs@, "set"@) is None
                    &&& ctx.struct_args == struct_args
                    &&& ctx@ == ContextView::of(struct_args@, struct_args_span, field)
                },
                Err(e) => {
                    &&& first_invalid(field.attrs@, "set"@) is Some
                    &&& e == invalid_attribute(
                        field.attrs@,
                        "set",
                        first_invalid(field.attrs@, "set"@)->Some_0,
                    )
                },
            },
    {
        let BaseField { attrs, vis, ident, ty, idx } = field;
        match args::extract::<FieldArgs>(attrs, "set", struct_args.allowed_attrs()) {
            Ok((field_args, field_args_span, mut field_attrs)) => {
                push_metas(&mut field_attrs, &field_args.attr);
                Ok(
                    Context {
                        struct_args,
                        struct_args_span,
                        field: Field::new(
                            vis,
                            ident,
                            ty,
                            idx,
                            field_args,
                            field_args_span,
                            field_attrs,
                        ),
                    },
                )
            },
            Err(e) => Err(e),
        }
    }

    /// Where a message about the field's arguments points.
    pub fn attr_span(&self) -> (r: Span)
        ensures
            r == self@.attr_span_spec(),
    {
        if self.field.args_span {
            Span::FieldArgs
        } else if self.struct_args_span {
            Span::StructArgs
        } else {
            Span::Field
        }
    }

    /// The visibility of the methods: what the field asks for, else what
    /// the structure asks for, else the field's own.
    pub fn vis(&self) -> (r: Visibility)
        ensures
            r == self@.vis_spec(),
    {
        args::vis(&self.field.args.vis, &self.struct_args.vis, &self.field.vis)
    }

    /// The name of the mutator: prefix, name of the field, suffix.
    pub fn method_name(&self) -> (r: String)
        ensures
            r@ == self@.method_name_spec(),
    {
        let mut s = self.prefix();
        s.append(self.field.basename().as_str());
        s.append(self.suffix().as_str());
        s
    }

    /// What stands before the field's name in the name of the mutator:
    /// what `prefix` asks for, else `set_`.
    pub fn prefix(&self) -> (r: String)
        ensures
            r@ == self@.prefix_spec(),
    {
        match self.prefix_arg() {
            Some(p) => p,
            None => String::from_str("set_"),
        }
    }

    /// The prefix for a method of another kind.
    pub fn with_prefix(&self, prefix: &str) -> (r: String)
        ensures
            r@ == self@.with_prefix_spec(prefix@),
    {
        match self.prefix_arg() {
            Some(arg) => {
                let mut s = arg;
                s.append("_");
                s.append(prefix);
                s
            },
            None => {
                let mut s = String::from_str(prefix);
                s.append("_");
                s
            },
        }
    }

    /// The prefix that `prefix` asks for, with its underscore.
    pub fn prefix_arg(&self) -> (r: Option<String>)
        ensures
            args::opt_text(r) == self@.prefix_arg_spec(),
    {
        args::prefix(&self.field.args.prefix, &self.struct_args.prefix)
    }

    /// What stands after the field's name in the names of the methods.
    pub fn suffix(&self) -> (r: String)
        ensures
            r@ == self@.suffix_spec(),
    {
        match args::suffix(&self.field.args.suffix, &self.struct_args.suffix) {
            Some(p) => p,
            None => String::new(),
        }
    }

    /// The methods of the field: none where `skip` is given; else those
    /// of the first of `into`, `try_into`, `opt` and `extend` that applies,
    /// or the plain mutator.
    pub fn methods(&self) -> (r: Result<Vec<ItemFn>, Error>)
        ensures
            match r {
                Ok(items) => self@.to_tokens_spec() == Ok::<Seq<ItemFnView>, Error>(
                    item_views(items@),
                ),
                Err(e) => self@.to_tokens_spec() == Err::<Seq<ItemFnView>, Error>(e),
            },
    {
        let mut items: Vec<ItemFn> = Vec::new();
        if self.field.args.skip {
            proof {
                assert(item_views(items@) =~= Seq::<ItemFnView>::empty());
            }
            return Ok(items);
        }
        if self.is_into() {
            items.push(into::setter(self));
        } else if self.is_try_into() {
            items.push(try_into::setter(self));
        } else if self.is_option()? {
            items.push(option::setter(self)?);
        } else if self.is_extend() {
            let setter = extend::setter(self)?;
            items.push(setter.extend);
            items.push(setter.append);
            proof {
                assert(item_views(items@) =~= seq![items@[0]@, items@[1]@]);
            }
            return Ok(items);
        } else {
            items.push(gen::setter(self));
        }
        proof {
            assert(item_views(items@) =~= seq![items@[0]@]);
        }
        Ok(items)
    }

    /// Appends the methods of the field to `tokens`. On a fault `tokens`
    /// stays as it was.
    pub fn to_tokens(&self, tokens: &mut Vec<ItemFn>) -> (r: Result<(), Error>)
        ensures
            match r {
                Ok(_) => {
                    &&& self@.to_tokens_spec() is Ok
                    &&& item_views(final(tokens)@) == item_views(old(tokens)@)
                        + self@.to_tokens_spec()->Ok_0
                },
                Err(e) => {
                    &&& self@.to_tokens_spec() == Err::<Seq<ItemFnView>, Error>(e)
                    &&& final(tokens)@ == old(tokens)@
                },
            },
    {
        let mut items = self.methods()?;
        proof {
            assert(item_views(tokens@ + items@) =~= item_views(tokens@) + item_views(items@));
        }
        tokens.append(&mut items);
        Ok(())
    }
}

/// Whatever their form, the methods of a field have this in common: there
/// are none exactly where `skip` is given, and never more than two; each
/// bears the attributes and the visibility of the field, takes `&mut self`
/// and the field's name as its argument, and is not `const`. A single
/// method is called by prefix, name and suffix.
pub proof fn lemma_methods_of_a_field(ctx: ContextView)
    requires
        ctx.to_tokens_spec() is Ok,
    ensures
        ({
            let items = ctx.to_tokens_spec()->Ok_0;
            &&& items.len() <= 2
            &&& ctx.field.args.skip <==> items.len() == 0
            &&& forall|i: int|
                0 <= i < items.len() ==> {
                    &&& (#[trigger] items[i]).attrs == ctx.field.attrs
                    &&& items[i].vis == ctx.vis_spec()
                    &&& !items[i].constness
                    &&& ("&mut self, "@ + ctx.field.basename_spec()).is_prefix_of(items[i].inputs)
                }
            &&& items.len() == 1 ==> items[0].ident == ctx.method_name_spec()
        }),
{
}

} // verus!
