//! A field as the accessors see it.

use vstd::prelude::*;

use crate::args;
use crate::field::{field_name, field_name_spec};
use crate::text::texts;
use crate::ty::{Type, TypeExt};
use crate::vis::Visibility;

use super::args::FieldArgsView;
use super::FieldArgs;

verus! {

/// A field with what `get` says on it.
#[derive(Debug)]
pub struct Field {
    pub vis: Visibility,
    /// The name of the field; `None` in a tuple structure.
    pub ident: Option<String>,
    pub ty: Type,
    /// The position of the field among the fields.
    pub idx: usize,
    pub args: FieldArgs,
    /// Whether the field bears a `get` attribute.
    pub args_span: bool,
    /// The attributes that are handed on to the methods, each as source text.
    pub attrs: Vec<String>,
}

/// A field with what `get` says on it, its lists as sequences.
pub struct FieldView {
    pub vis: Visibility,
    pub ident: Option<String>,
    pub ty: Type,
    pub idx: usize,
    pub args: FieldArgsView,
    pub args_span: bool,
    pub attrs: Seq<Seq<char>>,
}

impl View for Field {
    type V = FieldView;

    open spec fn view(&self) -> FieldView {
        FieldView {
            vis: self.vis,
            ident: self.ident,
            ty: self.ty,
            idx: self.idx,
            args: self.args@,
            args_span: self.args_span,
            attrs: texts(self.attrs@),
        }
    }
}

impl FieldView {
    /// The name that the methods of this field are built on.
    pub open spec fn basename_spec(&self) -> Seq<char> {
        args::name_spec(self.args.rename, self.ident, self.idx)
    }

    /// The expression that reads this field of `self`.
    pub open spec fn name_spec(&self) -> Seq<char> {
        field_name_spec(self.ident, self.idx)
    }

    /// `&` in front of a field that is no reference itself.
    pub open spec fn ref_spec(&self) -> Seq<char> {
        if self.ty.ref_elem_ty_spec() is None {
            "& "@
        } else {
            ""@
        }
    }

    /// `&mut` in front of a field that is no reference itself.
    pub open spec fn ref_mut_spec(&self) -> Seq<char> {
        if self.ty.ref_elem_ty_spec() is None {
            "&mut "@
        } else {
            ""@
        }
    }
}

impl Field {
    /// A field from its parts.
    pub fn new(
        vis: Visibility,
        ident: Option<String>,
        ty: Type,
        idx: usize,
        args: FieldArgs,
        args_span: bool,
        attrs: Vec<String>,
    ) -> (r: Self)
        ensures
            r == (Field { vis, ident, ty, idx, args, args_span, attrs }),
    {
        Field { vis, ident, ty, idx, args, args_span, attrs }
    }

    /// The name that the methods of this field are built on: the one given
    /// by `rename`, else the field's own, else `arg` and its position.
    pub fn basename(&self) -> (r: String)
        ensures
            r@ == self@.basename_spec(),
    {
        args::name(&self.args.rename, &self.ident, self.idx)
    }

    /// The expression that reads this field of `self`.
    pub fn name(&self) -> (r: String)
        ensures
            r@ == self@.name_spec(),
    {
        field_name(&self.ident, self.idx)
    }

    /// `&` in front of a field that is no reference itself, else nothing.
    pub fn ref_(&self) -> (r: &'static str)
        ensures
            r@ == self@.ref_spec(),
    {
        if self.ty.ref_elem_ty().is_none() {
            "& "
        } else {
            ""
        }
    }

    /// `&mut` in front of a field that is no reference itself, else nothing.
    pub fn ref_mut(&self) -> (r: &'static str)
        ensures
            r@ == self@.ref_mut_spec(),
    {
        if self.ty.ref_elem_ty().is_none() {
            "&mut "
        } else {
            ""
        }
    }

    /// A shared reference to the field: the field itself where it is a
    /// reference, else `&` and the field.
    pub fn ref_name(&self) -> (r: String)
        ensures
            r@ == self@.ref_spec() + self@.name_spec(),
    {
        let mut s = String::from_str(self.ref_());
        s.append(self.name().as_str());
        s
    }

    /// A mutable reference to the field: the field itself where it is a
    /// reference, else `&mut` and the field.
    pub fn ref_mut_name(&self) -> (r: String)
        ensures
            r@ == self@.ref_mut_spec() + self@.name_spec(),
    {
        let mut s = String::from_str(self.ref_mut());
        s.append(self.name().as_str());
        s
    }
}

} // verus!
