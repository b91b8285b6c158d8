//! A field together with the defaults of its structure.

use vstd::prelude::*;

use crate::args::{
    self, count_named, enabled, first_invalid, invalid_attribute, kept_attrs, merged_args,
    push_metas, wrapped_metas,
};
use crate::error::{Error, Span};
use crate::field::Field as BaseField;
use crate::item::{item_views, ItemFn, ItemFnView};
use crate::vis::Visibility;

use super::args::StructArgsView;
use super::field::FieldView;
use super::{borrow, bytes, clone, copy, gen, option, slice, string};
use super::{Field, FieldArgs, StructArgs};

verus! {

/// A field with what `get` says on it and on its structure.
#[derive(Debug)]
pub struct Context<'a> {
    pub struct_args: &'a StructArgs,
    /// Whether the structure bears a `get` attribute.
    pub struct_args_span: bool,
    pub field: Field,
}

/// A field with what `get` says on it and on its structure, the lists as sequences.
pub struct ContextView {
    pub struct_args: StructArgsView,
    pub struct_args_span: bool,
    pub field: FieldView,
}

impl<'a> View for Context<'a> {
    type V = ContextView;

    open spec fn view(&self) -> ContextView {
        ContextView {
            struct_args: self.struct_args@,
            struct_args_span: self.struct_args_span,
            field: self.field@,
        }
    }
}

impl ContextView {
    /// Where a message about the field's arguments points: at the field's
    /// `get` attributes, else at those of the structure, else at the field.
    pub open spec fn attr_span_spec(&self) -> Span {
        if self.field.args_span {
            Span::FieldArgs
        } else if self.struct_args_span {
            Span::StructArgs
        } else {
            Span::Field
        }
    }

    /// The visibility of the methods: what the field asks for, else what
    /// the structure asks for, else the field's own.
    pub open spec fn vis_spec(&self) -> Visibility {
        args::vis_spec(self.field.args.vis, self.struct_args.vis, self.field.vis)
    }

    /// Whether `const` is asked for: by the field where it says so, else by the structure.
    pub open spec fn constness_spec(&self) -> bool {
        enabled(&self.field.args.constness, &self.struct_args.constness)
    }

    /// What stands before the field's name in the names of the methods:
    /// what `prefix` asks for and an underscore, else nothing.
    pub open spec fn prefix_spec(&self) -> Seq<char> {
        match args::prefix_spec(self.field.args.prefix, self.struct_args.prefix) {
            Some(p) => p,
            None => Seq::empty(),
        }
    }

    /// What stands after the field's name in the names of the methods: an
    /// underscore and what `suffix` asks for, else nothing.
    pub open spec fn suffix_spec(&self) -> Seq<char> {
        match args::suffix_spec(self.field.args.suffix, self.struct_args.suffix) {
            Some(p) => p,
            None => Seq::empty(),
        }
    }

    /// The name of the accessor: prefix, name of the field, suffix.
    pub open spec fn method_name_spec(&self) -> Seq<char> {
        self.prefix_spec() + self.field.basename_spec() + self.suffix_spec()
    }

    /// The name of the mutable accessor: that of the accessor and `_mut`.
    pub open spec fn mut_method_name_spec(&self) -> Seq<char> {
        self.method_name_spec() + "_mut"@
    }

    /// The field `field` of a structure with the arguments `struct_args`,
    /// after its attributes have been read: what `get` says on it, and the
    /// attributes that its methods take over, which are those that
    /// `extract` keeps, then those that `attr(..)` asks for.
    pub open spec fn of(
        struct_args: StructArgsView,
        struct_args_span: bool,
        field: BaseField<FieldArgs>,
    ) -> ContextView {
        let field_args = merged_args(field.attrs@, "get"@);
        ContextView {
            struct_args,
            struct_args_span,
            field: FieldView {
                vis: field.vis,
                ident: field.ident,
                ty: field.ty,
                idx: field.idx,
                args: field_args,
                args_span: count_named(field.attrs@, "get"@) > 0,
                attrs: kept_attrs(field.attrs@, "get"@, struct_args.attrs) + wrapped_metas(
                    field_args.attr,
                ),
            },
        }
    }
}

impl<'a> Context<'a> {
    /// Reads what `get` says on `field`, and sets aside the attributes of
    /// the field that the methods take over: those that `extract` keeps,
    /// then those that `attr(..)` asks for.
    ///
    /// Fails at the first `get` attribute whose arguments are faulty.
    pub fn new(
        struct_args: &'a StructArgs,
        struct_args_span: bool,
        field: BaseField<FieldArgs>,
    ) -> (r: Result<Self, Error>)
        ensures
            match r {
                Ok(ctx) => {
                    &&& first_invalid(field.attrs@, "get"@) is None
                    &&& ctx.struct_args == struct_args
                    &&& ctx@ == ContextView::of(struct_args@, struct_args_span, field)
                },
                Err(e) => {
                    &&& first_invalid(field.attrs@, "get"@) is Some
                    &&& e == invalid_attribute(
                        field.attrs@,
                        "get",
                        first_invalid(field.attrs@, "get"@)->Some_0,
                    )
                },
            },
    {
        let BaseField { attrs, vis, ident, ty, idx } = field;
        match args::extract::<FieldArgs>(attrs, "get", struct_args.allowed_attrs()) {
            Ok((field_args, field_args_span, mut field_attrs)) => {
                push_metas(&mut field_attrs, &field_args.attr);
                Ok(
                    Context {
                        struct_args,
                        struct_args_span,
                        field: Field::new(
                            vis,
                            ident,
                            ty,
                            idx,
                            field_args,
                            field_args_span,
                            field_attrs,
                        ),
                    },
                )
            },
            Err(e) => Err(e),
        }
    }

    /// Where a message about the field's arguments points.
    pub fn attr_span(&self) -> (r: Span)
        ensures
            r == self@.attr_span_spec(),
    {
        if self.field.args_span {
            Span::FieldArgs
        } else if self.struct_args_span {
            Span::StructArgs
        } else {
            Span::Field
        }
    }

    /// The visibility of the methods: what the field asks for, else what
    /// the structure asks for, else the field's own.
    pub fn vis(&self) -> (r: Visibility)
        ensures
            r == self@.vis_spec(),
    {
        args::vis(&self.field.args.vis, &self.struct_args.vis, &self.field.vis)
    }

    /// Whether the accessor is `const`.
    pub fn constness(&self) -> (r: bool)
        ensures
            r == self@.constness_spec(),
    {
        args::constness(&self.field.args.constness, &self.struct_args.constness)
    }

    /// What stands before the field's name in the names of the methods.
    pub fn prefix(&self) -> (r: String)
        ensures
            r@ == self@.prefix_spec(),
    {
        match args::prefix(&self.field.args.prefix, &self.struct_args.prefix) {
            Some(p) => p,
            None => String::new(),
        }
    }

    /// What stands after the field's name in the names of the methods.
    pub fn suffix(&self) -> (r: String)
        ensures
            r@ == self@.suffix_spec(),
    {
        match args::suffix(&self.field.args.suffix, &self.struct_args.suffix) {
            Some(p) => p,
            None => String::new(),
        }
    }

    /// The name of the accessor: prefix, name of the field, suffix.
    pub fn method_name(&self) -> (r: String)
        ensures
            r@ == self@.method_name_spec(),
    {
        let mut s = self.prefix();
        s.append(self.field.basename().as_str());
        s.append(self.suffix().as_str());
        s
    }

    /// The name of the mutable accessor: that of the accessor and `_mut`.
    pub fn mut_method_name(&self) -> (r: String)
        ensures
            r@ == self@.mut_method_name_spec(),
    {
        let mut s = self.method_name();
        s.append("_mut");
        s
    }
}

impl ContextView {
    /// The accessor of the field. The first of these that applies decides
    /// its form: `copy`, `clone`, `opt`, `slice`, `str`, `bytes`,
    /// `borrow(..)`; where none applies it returns a shared reference. A
    /// fault in one of them counts only where none before it applies.
    pub open spec fn getter_spec(&self) -> Result<ItemFnView, Error> {
        if self.is_copyable_spec() {
            Ok(copy::getter_spec(*self))
        } else if self.is_cloneable_spec() {
            Ok(clone::getter_spec(*self))
        } else if self.is_option_spec() is Err {
            Err(self.is_option_spec()->Err_0)
        } else if self.is_option_spec() == Ok::<bool, Error>(true) {
            option::getter_spec(*self)
        } else if self.is_slice_spec() is Err {
            Err(self.is_slice_spec()->Err_0)
        } else if self.is_slice_spec() == Ok::<bool, Error>(true) {
            slice::getter_spec(*self)
        } else if self.is_str_spec() is Err {
            Err(self.is_str_spec()->Err_0)
        } else if self.is_str_spec() == Ok::<bool, Error>(true) {
            Ok(string::getter_spec(*self))
        } else if self.is_bytes_spec() is Err {
            Err(self.is_bytes_spec()->Err_0)
        } else if self.is_bytes_spec() == Ok::<bool, Error>(true) {
            Ok(bytes::getter_spec(*self))
        } else if self.is_borrow_spec() {
            borrow::getter_spec(*self)
        } else {
            Ok(gen::getter_spec(*self))
        }
    }

    /// Whether the field gets a mutable accessor: where `mut`, `mut_slice`,
    /// `mut_str` or `borrow_mut(..)` applies. A fault in one of them counts
    /// only where none before it applies.
    pub open spec fn wants_mut_spec(&self) -> Result<bool, Error> {
        if self.is_mutable_spec() {
            Ok(true)
        } else if self.is_mut_slice_spec() is Err {
            Err(self.is_mut_slice_spec()->Err_0)
        } else if self.is_mut_slice_spec() == Ok::<bool, Error>(true) {
            Ok(true)
        } else if self.is_mut_str_spec() is Err {
            Err(self.is_mut_str_spec()->Err_0)
        } else if self.is_mut_str_spec() == Ok::<bool, Error>(true) {
            Ok(true)
        } else {
            Ok(self.is_borrow_mut_spec())
        }
    }

    /// The mutable accessor of a field that gets one. The first of these
    /// that applies decides its form: `opt`, `mut_slice`, `mut_str`,
    /// `borrow_mut(..)`; where none applies it returns a mutable reference.
    pub open spec fn mut_getter_spec(&self) -> Result<ItemFnView, Error> {
        if self.is_option_spec() is Err {
            Err(self.is_option_spec()->Err_0)
        } else if self.is_option_spec() == Ok::<bool, Error>(true) {
            option::mut_getter_spec(*self)
        } else if self.is_mut_slice_spec() is Err {
            Err(self.is_mut_slice_spec()->Err_0)
        } else if self.is_mut_slice_spec() == Ok::<bool, Error>(true) {
            slice::mut_getter_spec(*self)
        } else if self.is_mut_str_spec() is Err {
            Err(self.is_mut_str_spec()->Err_0)
        } else if self.is_mut_str_spec() == Ok::<bool, Error>(true) {
            Ok(string::mut_getter_spec(*self))
        } else if self.is_borrow_mut_spec() {
            borrow::mut_getter_spec(*self)
        } else {
            Ok(gen::mut_getter_spec(*self))
        }
    }

    /// The methods of the field: none where `skip` is given; else its
    /// accessor and, where it gets one, its mutable accessor. The first
    /// fault on the way is the result.
    pub open spec fn to_tokens_spec(&self) -> Result<Seq<ItemFnView>, Error> {
        if self.field.args.skip {
            Ok(Seq::empty())
        } else if self.getter_spec() is Err {
            Err(self.getter_spec()->Err_0)
        } else if self.wants_mut_spec() is Err {
            Err(self.wants_mut_spec()->Err_0)
        } else if self.wants_mut_spec() == Ok::<bool, Error>(false) {
            Ok(seq![self.getter_spec()->Ok_0])
        } else if self.mut_getter_spec() is Err {
            Err(self.mut_getter_spec()->Err_0)
        } else {
            Ok(seq![self.getter_spec()->Ok_0, self.mut_getter_spec()->Ok_0])
        }
    }
}

impl<'a> Context<'a> {
    /// The accessor of the field.
    pub fn getter(&self) -> (r: Result<ItemFn, Error>)
        ensures
            match r {
                Ok(f) => self@.getter_spec() == Ok::<ItemFnView, Error>(f@),
                Err(e) => self@.getter_spec() == Err::<ItemFnView, Error>(e),
            },
    {
        if self.is_copyable() {
            Ok(copy::getter(self))
        } else if self.is_cloneable() {
            Ok(clone::getter(self))
        } else if self.is_option()? {
            option::getter(self)
        } else if self.is_slice()? {
            slice::getter(self)
        } else if self.is_str()? {
            Ok(string::getter(self))
        } else if self.is_bytes()? {
            Ok(bytes::getter(self))
        } else if self.is_borrow() {
            borrow::getter(self)
        } else {
            Ok(gen::getter(self))
        }
    }

    /// Whether the field gets a mutable accessor.
    pub fn wants_mut(&self) -> (r: Result<bool, Error>)
        ensures
            r == self@.wants_mut_spec(),
    {
        Ok(self.is_mutable() || self.is_mut_slice()? || self.is_mut_str()? || self.is_borrow_mut())
    }

    /// The mutable accessor of a field that gets one.
    pub fn mut_getter(&self) -> (r: Result<ItemFn, Error>)
        ensures
            match r {
                Ok(f) => self@.mut_getter_spec() == Ok::<ItemFnView, Error>(f@),
                Err(e) => self@.mut_getter_spec() == Err::<ItemFnView, Error>(e),
            },
    {
        if self.is_option()? {
            option::mut_getter(self)
        } else if self.is_mut_slice()? {
            slice::mut_getter(self)
        } else if self.is_mut_str()? {
            Ok(string::mut_getter(self))
        } else if self.is_borrow_mut() {
            borrow::mut_getter(self)
        } else {
            Ok(gen::mut_getter(self))
        }
    }

    /// Appends the methods of the field to `tokens`: none where `skip` is
    /// given; else its accessor and, where it gets one, its mutable
    /// accessor. On a fault `tokens` stays as it was.
    pub fn to_tokens(&self, tokens: &mut Vec<ItemFn>) -> (r: Result<(), Error>)
        ensures
            match r {
                Ok(_) => {
                    &&& self@.to_tokens_spec() is Ok
                    &&& item_views(final(tokens)@) == item_views(old(tokens)@)
                        + self@.to_tokens_spec()->Ok_0
                },
                Err(e) => {
                    &&& self@.to_tokens_spec() == Err::<Seq<ItemFnView>, Error>(e)
                    &&& final(tokens)@ == old(tokens)@
                },
            },
    {
        if self.field.args.skip {
            proof {
                assert(item_views(tokens@) =~= item_views(tokens@) + Seq::<ItemFnView>::empty());
            }
            return Ok(());
        }
        let getter = self.getter()?;
        if self.wants_mut()? {
            let mut_getter = self.mut_getter()?;
            proof {
                assert(item_views(tokens@.push(getter).push(mut_getter)) =~= item_views(tokens@)
                    + seq![getter@, mut_getter@]);
            }
            tokens.push(getter);
            tokens.push(mut_getter);
        } else {
            proof {
                assert(item_views(tokens@.push(getter)) =~= item_views(tokens@) + seq![getter@]);
            }
            tokens.push(getter);
        }
        Ok(())
    }
}

/// Whatever their form, the methods of a field have this in common: there
/// are none exactly where `skip` is given, and never more than two; each
/// bears the attributes and the visibility of the field and has no generic
/// parameters; the first takes `&self`, is called by prefix, name and
/// suffix, and is `const` where that is asked for; the second takes
/// `&mut self`, bears the same name with `_mut` behind it, and is never
/// `const`.
pub proof fn lemma_methods_of_a_field(ctx: ContextView)
    requires
        ctx.to_tokens_spec() is Ok,
    ensures
        ({
            let items = ctx.to_tokens_spec()->Ok_0;
            &&& items.len() <= 2
            &&& ctx.field.args.skip <==> items.len() == 0
            &&& forall|i: int|
                0 <= i < items.len() ==> {
                    &&& (#[trigger] items[i]).attrs == ctx.field.attrs
                    &&& items[i].vis == ctx.vis_spec()
                    &&& items[i].generics == ""@
                    &&& items[i].where_clause is None
                }
            &&& items.len() >= 1 ==> {
                &&& items[0].ident == ctx.method_name_spec()
                &&& items[0].inputs == "&self"@
                &&& items[0].constness == ctx.constness_spec()
            }
            &&& items.len() == 2 ==> {
                &&& items[1].ident == ctx.mut_method_name_spec()
                &&& items[1].inputs == "&mut self"@
                &&& !items[1].constness
            }
        }),
{
}

} // verus!
