//! The arguments of `set` on a structure and on a field.

use vstd::prelude::*;

use crate::args::{
    either, first_given, joined, lemma_joined_is_associative, merge_flag, merge_name_args,
    merge_option, name_args_items, Args, Flag, NameArgs, NameValue,
};
use crate::text::clone_strings;
use crate::ty::Type;
use crate::vis::Restricted;

verus! {

/// What `set` says on a structure: the defaults for its fields.
#[derive(Debug)]
pub struct StructArgs {
    pub vis: Option<NameArgs<Option<Restricted>>>,
    pub into: Flag,
    pub try_into: Flag,
    pub opt: Flag,
    pub prefix: Option<NameValue<String>>,
    pub suffix: Option<NameValue<String>>,
    /// Further attribute names that are handed on to the generated methods.
    pub attrs: Option<NameArgs<Vec<String>>>,
}

/// `StructArgs` with its list as a sequence.
pub struct StructArgsView {
    pub vis: Option<NameArgs<Option<Restricted>>>,
    pub into: Flag,
    pub try_into: Flag,
    pub opt: Flag,
    pub prefix: Option<NameValue<String>>,
    pub suffix: Option<NameValue<String>>,
    pub attrs: Option<Seq<String>>,
}

impl View for StructArgs {
    type V = StructArgsView;

    open spec fn view(&self) -> StructArgsView {
        StructArgsView {
            vis: self.vis,
            into: self.into,
            try_into: self.try_into,
            opt: self.opt,
            prefix: self.prefix,
            suffix: self.suffix,
            attrs: name_args_items(self.attrs),
        }
    }
}

impl Args for StructArgs {
    open spec fn empty_view() -> StructArgsView {
        StructArgsView {
            vis: None,
            into: Flag { set: false },
            try_into: Flag { set: false },
            opt: Flag { set: false },
            prefix: None,
            suffix: None,
            attrs: None,
        }
    }

    open spec fn merge_view(before: StructArgsView, other: StructArgsView) -> StructArgsView {
        StructArgsView {
            vis: first_given(before.vis, other.vis),
            into: either(before.into, other.into),
            try_into: either(before.try_into, other.try_into),
            opt: either(before.opt, other.opt),
            prefix: first_given(before.prefix, other.prefix),
            suffix: first_given(before.suffix, other.suffix),
            attrs: joined(before.attrs, other.attrs),
        }
    }

    proof fn lemma_empty_is_neutral(v: Self::V) {
    }

    proof fn lemma_merge_is_associative(a: Self::V, b: Self::V, c: Self::V) {
        let left = Self::merge_view(Self::merge_view(a, b), c);
        let right = Self::merge_view(a, Self::merge_view(b, c));
        assert(left.vis == right.vis);
        assert(left.into == right.into);
        assert(left.try_into == right.try_into);
        assert(left.opt == right.opt);
        assert(left.prefix == right.prefix);
        assert(left.suffix == right.suffix);
        assert(left.attrs == right.attrs) by {
            lemma_joined_is_associative(a.attrs, b.attrs, c.attrs);
        }
    }

    fn empty() -> (r: Self) {
        StructArgs {
            vis: None,
            into: Flag { set: false },
            try_into: Flag { set: false },
            opt: Flag { set: false },
            prefix: None,
            suffix: None,
            attrs: None,
        }
    }

    fn merged(self, other: Self) -> (r: Self) {
        let mut vis = self.vis;
        merge_option(&mut vis, other.vis);
        let mut into = self.into;
        merge_flag(&mut into, other.into);
        let mut try_into = self.try_into;
        merge_flag(&mut try_into, other.try_into);
        let mut opt = self.opt;
        merge_flag(&mut opt, other.opt);
        let mut prefix = self.prefix;
        merge_option(&mut prefix, other.prefix);
        let mut suffix = self.suffix;
        merge_option(&mut suffix, other.suffix);
        let mut attrs = self.attrs;
        merge_name_args(&mut attrs, other.attrs);
        StructArgs { vis, into, try_into, opt, prefix, suffix, attrs }
    }
}

impl StructArgs {
    /// The attribute names that the structure allows besides the well-known ones.
    pub fn allowed_attrs(&self) -> (r: Option<Vec<String>>)
        ensures
            name_args_items(self.attrs) == (match r {
                Some(v) => Some(v@),
                None => None,
            }),
    {
        match &self.attrs {
            Some(arg) => Some(clone_strings(&arg.args)),
            None => None,
        }
    }
}

/// A generic parameter with its bounds, as in `T: Clone`.
#[derive(Debug)]
pub struct TypeParam {
    /// The name of the parameter.
    pub ident: String,
    /// The parameter as source text.
    pub text: String,
}

/// What `extend(..)` names: the type of an item, or a generic parameter
/// that stands for it.
#[derive(Debug)]
pub enum Extend {
    Type(Type),
    Bound(TypeParam),
}

/// The two forms of what stands in `extend(..)`.
#[derive(Clone, Copy, Debug, PartialEq, Eq)]
pub enum ExtendForm {
    Type,
    Bound,
}

impl Extend {
    /// How to read what stands in `extend(..)`: as a generic parameter
    /// where it begins with a name and a colon, else as a type.
    pub fn form(name_first: bool, colon_second: bool) -> (r: ExtendForm)
        ensures
            r == (if name_first && colon_second {
                ExtendForm::Bound
            } else {
                ExtendForm::Type
            }),
    {
        if name_first && colon_second {
            ExtendForm::Bound
        } else {
            ExtendForm::Type
        }
    }
}

/// What `set` says on a field.
#[derive(Debug)]
pub struct FieldArgs {
    pub vis: Option<NameArgs<Option<Restricted>>>,
    /// No mutator for this field.
    pub skip: bool,
    pub into: Option<NameArgs<Option<bool>>>,
    pub try_into: Option<NameArgs<Option<bool>>>,
    pub opt: Option<NameArgs<Option<bool>>>,
    pub extend: Option<NameArgs<Option<Extend>>>,
    pub rename: Option<NameArgs<String>>,
    pub prefix: Option<NameValue<String>>,
    pub suffix: Option<NameValue<String>>,
    /// Attributes to put on the generated methods, each as source text
    /// without the `#[` and `]` around it.
    pub attr: Option<NameArgs<Vec<String>>>,
}

/// `FieldArgs` with its list as a sequence.
pub struct FieldArgsView {
    pub vis: Option<NameArgs<Option<Restricted>>>,
    pub skip: bool,
    pub into: Option<NameArgs<Option<bool>>>,
    pub try_into: Option<NameArgs<Option<bool>>>,
    pub opt: Option<NameArgs<Option<bool>>>,
    pub extend: Option<NameArgs<Option<Extend>>>,
    pub rename: Option<NameArgs<String>>,
    pub prefix: Option<NameValue<String>>,
    pub suffix: Option<NameValue<String>>,
    pub attr: Option<Seq<String>>,
}

impl View for FieldArgs {
    type V = FieldArgsView;

    open spec fn view(&self) -> FieldArgsView {
        FieldArgsView {
            vis: self.vis,
            skip: self.skip,
            into: self.into,
            try_into: self.try_into,
            opt: self.opt,
            extend: self.extend,
            rename: self.rename,
            prefix: self.prefix,
            suffix: self.suffix,
            attr: name_args_items(self.attr),
        }
    }
}

impl Args for FieldArgs {
    open spec fn empty_view() -> FieldArgsView {
        FieldArgsView {
            vis: None,
            skip: false,
            into: None,
            try_into: None,
            opt: None,
            extend: None,
            rename: None,
            prefix: None,
            suffix: None,
            attr: None,
        }
    }

    open spec fn merge_view(before: FieldArgsView, other: FieldArgsView) -> FieldArgsView {
        FieldArgsView {
            vis: first_given(before.vis, other.vis),
            skip: before.skip || other.skip,
            into: first_given(before.into, other.into),
            try_into: first_given(before.try_into, other.try_into),
            opt: first_given(before.opt, other.opt),
            extend: first_given(before.extend, other.extend),
            rename: first_given(before.rename, other.rename),
            prefix: first_given(before.prefix, other.prefix),
            suffix: first_given(before.suffix, other.suffix),
            attr: joined(before.attr, other.attr),
        }
    }

    proof fn lemma_empty_is_neutral(v: Self::V) {
    }

    proof fn lemma_merge_is_associative(a: Self::V, b: Self::V, c: Self::V) {
        let left = Self::merge_view(Self::merge_view(a, b), c);
        let right = Self::merge_view(a, Self::merge_view(b, c));
        assert(left.vis == right.vis);
        assert(left.skip == right.skip);
        assert(left.into == right.into);
        assert(left.try_into == right.try_into);
        assert(left.opt == right.opt);
        assert(left.extend == right.extend);
        assert(left.rename == right.rename);
        assert(left.prefix == right.prefix);
        assert(left.suffix == right.suffix);
        assert(left.attr == right.attr) by {
            lemma_joined_is_associative(a.attr, b.attr, c.attr);
        }
    }

    fn empty() -> (r: Self) {
        FieldArgs {
            vis: None,
            skip: false,
            into: None,
            try_into: None,
            opt: None,
            extend: None,
            rename: None,
            prefix: None,
            suffix: None,
            attr: None,
        }
    }

    fn merged(self, other: Self) -> (r: Self) {
        let mut vis = self.vis;
        merge_option(&mut vis, other.vis);
        let mut skip = self.skip;
        merge::bool::overwrite_false(&mut skip, other.skip);
        let mut into = self.into;
        merge_option(&mut into, other.into);
        let mut try_into = self.try_into;
        merge_option(&mut try_into, other.try_into);
        let mut opt = self.opt;
        merge_option(&mut opt, other.opt);
        let mut extend = self.extend;
        merge_option(&mut extend, other.extend);
        let mut rename = self.rename;
        merge_option(&mut rename, other.rename);
        let mut prefix = self.prefix;
        merge_option(&mut prefix, other.prefix);
        let mut suffix = self.suffix;
        merge_option(&mut suffix, other.suffix);
        let mut attr = self.attr;
        merge_name_args(&mut attr, other.attr);
        FieldArgs { vis, skip, into, try_into, opt, extend, rename, prefix, suffix, attr }
    }
}

/// What `extend(..)` names, where it names anything.
pub open spec fn extend_spec(p: &Option<NameArgs<Option<Extend>>>) -> Option<&Extend> {
    match p {
        Some(arg) => match &arg.args {
            Some(e) => Some(e),
            None => None,
        },
        None => None,
    }
}

impl FieldArgs {
    /// What `extend(..)` names, where it names anything.
    pub fn extend(&self) -> (r: Option<&Extend>)
        ensures
            r == extend_spec(&self.extend),
    {
        match &self.extend {
            Some(arg) => arg.args.as_ref(),
            None => None,
        }
    }
}

} // verus!
