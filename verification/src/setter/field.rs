//! A field as the mutators see it.

use vstd::prelude::*;

use crate::args;
use crate::field::{field_name, field_name_spec};
use crate::text::texts;
use crate::ty::Type;
use crate::vis::Visibility;

use super::args::FieldArgsView;
use super::FieldArgs;

verus! {

/// A field with what `set` says on it.
#[derive(Debug)]
pub struct Field {
    pub vis: Visibility,
    /// The name of the field; `None` in a tuple structure.
    pub ident: Option<String>,
    pub ty: Type,
    /// The position of the field among the fields.
    pub idx: usize,
    pub args: FieldArgs,
    /// Whether the field bears a `set` attribute.
    pub args_span: bool,
    /// The attributes that are handed on to the methods, each as source text.
    pub attrs: Vec<String>,
}

/// A field with what `set` says on it, its lists as sequences.
pub struct FieldView {
    pub vis: Visibility,
    pub ident: Option<String>,
    pub ty: Type,
    pub idx: usize,
    pub args: FieldArgsView,
    pub args_span: bool,
    pub attrs: Seq<Seq<char>>,
}

impl View for Field {
    type V = FieldView;

    open spec fn view(&self) -> FieldView {
        FieldView {
            vis: self.vis,
            ident: self.ident,
            ty: self.ty,
            idx: self.idx,
            args: self.args@,
            args_span: self.args_span,
            attrs: texts(self.attrs@),
        }
    }
}

impl FieldView {
    /// The name that the methods of this field are built on, which is also
    /// the name of their argument.
    pub open spec fn basename_spec(&self) -> Seq<char> {
        args::name_spec(self.args.rename, self.ident, self.idx)
    }

    /// The expression that reads this field of `self`.
    pub open spec fn name_spec(&self) -> Seq<char> {
        field_name_spec(self.ident, self.idx)
    }
}

impl Field {
    /// A field from its parts.
    pub fn new(
        vis: Visibility,
        ident: Option<String>,
        ty: Type,
        idx: usize,
        args: FieldArgs,
        args_span: bool,
        attrs: Vec<String>,
    ) -> (r: Self)
        ensures
            r == (Field { vis, ident, ty, idx, args, args_span, attrs }),
    {
        Field { vis, ident, ty, idx, args, args_span, attrs }
    }

    /// The name that the methods of this field are built on: the one given
    /// by `rename`, else the field's own, else `arg` and its position.
    pub fn basename(&self) -> (r: String)
        ensures
            r@ == self@.basename_spec(),
    {
        args::name(&self.args.rename, &self.ident, self.idx)
    }

    /// The name of the argument of the field's mutator: as `basename`.
    pub fn arg_name(&self) -> (r: String)
        ensures
            r@ == self@.basename_spec(),
    {
        args::name(&self.args.rename, &self.ident, self.idx)
    }

    /// The expression that reads this field of `self`.
    pub fn name(&self) -> (r: String)
        ensures
            r@ == self@.name_spec(),
    {
        field_name(&self.ident, self.idx)
    }
}

} // verus!
